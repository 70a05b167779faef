use autopeer::config::{
    check_config, parse_init_system, ApiConfig, AppConfig, ConfigError, EnvironmentConfig,
    InitSystem, PeerConfig, StaticConfig,
};
use autopeer::gen_config::{gen_bird_config, gen_wireguard_config, BirdConfig, WireguardConfig};
use autopeer::model::Peer;

fn cfg() -> StaticConfig {
    StaticConfig {
        link_local: "fe80::100".to_string(),
        wireguard_private_key: "SECRET-REDACTED".to_string(),
        port_prefix_number: 2,
        init_system: InitSystem::Systemd,
        systemctl_path: "/usr/bin/systemctl".to_string(),
        rc_service_path: "/sbin/rc-service".to_string(),
        rc_update_path: "/sbin/rc-update".to_string(),
        birdc_path: "/usr/sbin/birdc".to_string(),
    }
}

fn peer() -> Peer {
    Peer {
        asn: 4242420253,
        wireguard_endpoint: "203.0.113.5:51820".to_string(),
        wireguard_link_local: "fe80::1".to_string(),
        wireguard_public_key: "AAAAAAAAAAAAAAAAAAAAAAAAAAAAAAAAAAAAAAAAAAA=".to_string(),
    }
}

#[test]
fn test_wireguard_config_text() {
    let text = gen_wireguard_config(&peer(), &cfg()).unwrap();
    let expected = "[Interface]\n\
                    PrivateKey = SECRET-REDACTED\n\
                    ListenPort = 20253\n\
                    PostUp = ip addr add fe80::100/64 dev %i\n\
                    Table = off\n\
                    \n\
                    [Peer]\n\
                    PublicKey = AAAAAAAAAAAAAAAAAAAAAAAAAAAAAAAAAAAAAAAAAAA=\n\
                    Endpoint = 203.0.113.5:51820\n\
                    AllowedIPs = fe80::/64, fd00::/8\n\
                    PersistentKeepalive = 25\n";
    assert_eq!(text, expected);
}

#[test]
fn test_bird_config_text() {
    let text = gen_bird_config(&peer(), &cfg());
    let expected = "protocol bgp dn42_253 from dnpeers {\n\
                    \x20   source address fe80::100;\n\
                    \x20   neighbor fe80::1 % 'dn42_253' as 4242420253;\n\
                    }\n";
    assert_eq!(text, expected);
}

#[test]
fn test_wireguard_config_fails_on_bad_port_prefix() {
    let mut c = cfg();
    c.port_prefix_number = 0;
    let mut p = peer();
    p.asn = 4242420253;
    // 0 * 10000 + 253 = 253, below 1024.
    assert!(gen_wireguard_config(&p, &c).is_err());
    c.port_prefix_number = 7;
    // 7 * 10000 + 253 = 70253, above 65535.
    assert!(gen_wireguard_config(&p, &c).is_err());
}

#[test]
fn test_derivation_is_idempotent() {
    let p = peer();
    let c = cfg();
    assert_eq!(
        gen_wireguard_config(&p, &c).unwrap(),
        gen_wireguard_config(&p, &c).unwrap()
    );
    assert_eq!(gen_bird_config(&p, &c), gen_bird_config(&p, &c));
    assert_eq!(p.gen_interface_name(), p.gen_interface_name());
    assert_eq!(p.gen_wireguard_config_path(), p.gen_wireguard_config_path());
    assert_eq!(p.gen_bird_config_path(), p.gen_bird_config_path());
}

#[test]
fn test_render_structs_directly() {
    let wg = WireguardConfig {
        wireguard_private_key: "k".to_string(),
        wireguard_listen_port: 1024,
        wireguard_link_local_ipv6: "fe80::2".to_string(),
        wireguard_peer_public_key: "p".to_string(),
        wireguard_peer_endpoint: "h:1".to_string(),
    };
    assert!(wg.render().contains("ListenPort = 1024"));
    let bird = BirdConfig {
        interface_name: "dn42_7".to_string(),
        wireguard_link_local_ipv6: "fe80::2".to_string(),
        peer_link_local_ipv6: "fe80::3".to_string(),
        peer_asn: 4242420007,
    };
    assert!(bird.render().contains("neighbor fe80::3 % 'dn42_7' as 4242420007;"));
}

fn raw_config() -> AppConfig {
    AppConfig {
        api: ApiConfig {
            api_port: 8080,
            listen_address_v4: "127.0.0.1".to_string(),
            listen_address_v6: "".to_string(),
            secret: "SECRET-REDACTED".to_string(),
        },
        peer: PeerConfig {
            link_local: "fe80::100".to_string(),
            wireguard_private_key: "SECRET-REDACTED".to_string(),
            port_prefix_number: 2,
        },
        env: EnvironmentConfig {
            init_system: "systemd".to_string(),
            rc_service_path: "/sbin/rc-service".to_string(),
            rc_update_path: "/sbin/rc-update".to_string(),
            systemctl_path: "/usr/bin/systemctl".to_string(),
            birdc_path: "/usr/sbin/birdc".to_string(),
        },
    }
}

#[test]
fn test_check_config_accepts_valid() {
    let sc = check_config(raw_config()).unwrap();
    assert!(matches!(sc.init_system, InitSystem::Systemd));
    assert_eq!(sc.port_prefix_number, 2);
    assert_eq!(sc.link_local, "fe80::100");
}

#[test]
fn test_check_config_rejects_in_order() {
    let mut c = raw_config();
    c.peer.link_local = "".to_string();
    assert!(matches!(check_config(c), Err(ConfigError::NoLinkLocal)));

    let mut c = raw_config();
    c.peer.port_prefix_number = 6;
    assert!(matches!(check_config(c), Err(ConfigError::InvalidPortPrefix)));

    let mut c = raw_config();
    c.peer.port_prefix_number = 0;
    assert!(matches!(check_config(c), Err(ConfigError::InvalidPortPrefix)));

    let mut c = raw_config();
    c.env.init_system = "launchd".to_string();
    assert!(matches!(
        check_config(c),
        Err(ConfigError::UnsupportedInitSystem)
    ));

    let mut c = raw_config();
    c.env.systemctl_path = "".to_string();
    assert!(matches!(check_config(c), Err(ConfigError::NoSystemctlPath)));

    let mut c = raw_config();
    c.api.api_port = 0;
    assert!(matches!(check_config(c), Err(ConfigError::InvalidApiPort)));

    let mut c = raw_config();
    c.api.listen_address_v4 = "".to_string();
    assert!(matches!(check_config(c), Err(ConfigError::NoListenAddress)));

    let mut c = raw_config();
    c.env.birdc_path = "".to_string();
    assert!(matches!(check_config(c), Err(ConfigError::NoBirdcPath)));
}

#[test]
fn test_check_config_openrc_paths() {
    let mut c = raw_config();
    c.env.init_system = "openrc".to_string();
    c.env.rc_service_path = "".to_string();
    assert!(matches!(check_config(c), Err(ConfigError::NoRcServicePath)));

    let mut c = raw_config();
    c.env.init_system = "openrc".to_string();
    c.env.rc_update_path = "".to_string();
    assert!(matches!(check_config(c), Err(ConfigError::NoRcUpdatePath)));

    let mut c = raw_config();
    c.env.init_system = "openrc".to_string();
    let sc = check_config(c).unwrap();
    assert!(matches!(sc.init_system, InitSystem::OpenRc));
}

#[test]
fn test_parse_init_system() {
    assert!(matches!(
        parse_init_system(&"systemd".to_string()),
        Some(InitSystem::Systemd)
    ));
    assert!(matches!(
        parse_init_system(&"openrc".to_string()),
        Some(InitSystem::OpenRc)
    ));
    assert!(parse_init_system(&"sysvinit".to_string()).is_none());
    assert!(parse_init_system(&"".to_string()).is_none());
}

#[test]
fn test_config_error_messages() {
    assert_eq!(
        ConfigError::InvalidPortPrefix.message(),
        "Port prefix number must be between 1 and 5"
    );
    assert_eq!(ConfigError::NoLinkLocal.message(), "No link-local address found");
}
