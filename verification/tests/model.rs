use autopeer::model::Peer;

fn p() -> Peer {
    Peer {
        asn: 0,
        wireguard_endpoint: "1.2.3.4:51820".to_string(),
        wireguard_link_local: "fe80::1".to_string(),
        wireguard_public_key: "test".to_string(),
    }
}

#[test]
fn test_endpoint_valid() {
    let mut peer = p();
    peer.wireguard_endpoint = "1.2.3.4:51820".to_string();
    assert!(peer.is_valid_wireguard_endpoint());
    peer.wireguard_endpoint = "example.com:12345".to_string();
    assert!(peer.is_valid_wireguard_endpoint());
    peer.wireguard_endpoint = "[::1]:51820".to_string();
    assert!(peer.is_valid_wireguard_endpoint());
    peer.wireguard_endpoint = "[2001:db8::1]:1".to_string();
    assert!(peer.is_valid_wireguard_endpoint());
    peer.wireguard_endpoint = "a-b.test:65535".to_string();
    assert!(peer.is_valid_wireguard_endpoint());
}

#[test]
fn test_endpoint_invalid() {
    let mut peer = p();
    peer.wireguard_endpoint = "1.2.3.4".to_string();
    assert!(!peer.is_valid_wireguard_endpoint());
    peer.wireguard_endpoint = "::1:51820".to_string();
    assert!(!peer.is_valid_wireguard_endpoint());
    peer.wireguard_endpoint = "[::1]".to_string();
    assert!(!peer.is_valid_wireguard_endpoint());
    peer.wireguard_endpoint = "example.com:0".to_string();
    assert!(!peer.is_valid_wireguard_endpoint());
    peer.wireguard_endpoint = "example.com:65536".to_string();
    assert!(!peer.is_valid_wireguard_endpoint());
    peer.wireguard_endpoint = ":80".to_string();
    assert!(!peer.is_valid_wireguard_endpoint());
    peer.wireguard_endpoint = "".to_string();
    assert!(!peer.is_valid_wireguard_endpoint());
}

#[test]
fn test_asn_valid() {
    let mut peer = p();
    peer.asn = 4_242_420_000;
    assert!(peer.is_valid_asn());
    peer.asn = 4_242_429_999;
    assert!(peer.is_valid_asn());
    peer.asn = 4_242_420_253;
    assert!(peer.is_valid_asn());
}

#[test]
fn test_asn_invalid() {
    let mut peer = p();
    peer.asn = 4_242_420_00;
    assert!(!peer.is_valid_asn());
    peer.asn = 4_242_431_000;
    assert!(!peer.is_valid_asn());
    peer.asn = 0;
    assert!(!peer.is_valid_asn());
    peer.asn = 42_424_210_000;
    assert!(!peer.is_valid_asn());
}

#[test]
fn test_link_local_valid() {
    let mut peer = p();
    peer.wireguard_link_local = "fe80::1".to_string();
    assert!(peer.is_valid_link_local());
    peer.wireguard_link_local = "fe80::abcd".to_string();
    assert!(peer.is_valid_link_local());
    peer.wireguard_link_local = "febf::1".to_string();
    assert!(peer.is_valid_link_local());
}

#[test]
fn test_link_local_invalid() {
    let mut peer = p();
    peer.wireguard_link_local = "::1".to_string();
    assert!(!peer.is_valid_link_local());
    peer.wireguard_link_local = "fec0::1".to_string();
    assert!(!peer.is_valid_link_local());
    peer.wireguard_link_local = "fe7f::1".to_string();
    assert!(!peer.is_valid_link_local());
    peer.wireguard_link_local = "not-an-ip".to_string();
    assert!(!peer.is_valid_link_local());
}

#[test]
fn test_public_key_valid() {
    let mut peer = p();
    peer.wireguard_public_key = "AAAAAAAAAAAAAAAAAAAAAAAAAAAAAAAAAAAAAAAAAAA=".to_string();
    assert!(peer.is_valid_wireguard_public_key());
}

#[test]
fn test_public_key_invalid() {
    let mut peer = p();
    peer.wireguard_public_key = "not-a-key".to_string();
    assert!(!peer.is_valid_wireguard_public_key());
    peer.wireguard_public_key = format!("{}==", "A".repeat(42));
    assert!(!peer.is_valid_wireguard_public_key());
    peer.wireguard_public_key = format!("{}!=", "A".repeat(42));
    assert!(!peer.is_valid_wireguard_public_key());
}

#[test]
fn test_link_local_full_and_embedded_forms() {
    let mut peer = p();
    peer.wireguard_link_local = "fe80:0:0:0:0:0:0:1".to_string();
    assert!(peer.is_valid_link_local());
    peer.wireguard_link_local = "fe80::1.2.3.4".to_string();
    assert!(peer.is_valid_link_local());
    peer.wireguard_link_local = "fe80:1:2:3:4:5:6:7:8".to_string();
    assert!(!peer.is_valid_link_local());
    peer.wireguard_link_local = "fe80::1::2".to_string();
    assert!(!peer.is_valid_link_local());
    peer.wireguard_link_local = "fe80:".to_string();
    assert!(!peer.is_valid_link_local());
    peer.wireguard_link_local = "fe800::1".to_string();
    assert!(!peer.is_valid_link_local());
    peer.wireguard_link_local = "fe80::1.2.3.256".to_string();
    assert!(!peer.is_valid_link_local());
    peer.wireguard_link_local = "fe80::1.2.3.04".to_string();
    assert!(!peer.is_valid_link_local());
    // Shorthand and zero-padded forms the grammar allows.
    peer.wireguard_link_local = "fe80::".to_string();
    assert!(peer.is_valid_link_local());
    peer.wireguard_link_local = "fe80::01".to_string();
    assert!(peer.is_valid_link_local());
    peer.wireguard_link_local = "fe80:0000:0000:0000:0000:0000:0000:0001".to_string();
    assert!(peer.is_valid_link_local());
    peer.wireguard_link_local = "fe80:1:2:3:4:5:6:7".to_string();
    assert!(peer.is_valid_link_local());
    // A lone `::` parses but is not link-local.
    peer.wireguard_link_local = "::".to_string();
    assert!(!peer.is_valid_link_local());
}

#[test]
fn test_public_key_wrong_decoded_length() {
    let mut peer = p();
    // 44 characters of valid base64 that decode to 33 bytes, not 32.
    peer.wireguard_public_key = format!("{}A", "A".repeat(43));
    assert!(!peer.is_valid_wireguard_public_key());
    // 40 characters decode to 30 bytes: wrong length before decoding.
    peer.wireguard_public_key = "A".repeat(40);
    assert!(!peer.is_valid_wireguard_public_key());
}

#[test]
fn test_gen_interface_name() {
    let mut peer = p();
    peer.asn = 4_242_420_253;
    assert_eq!(peer.gen_interface_name(), "dn42_253");
    peer.asn = 4_242_429_999;
    assert_eq!(peer.gen_interface_name(), "dn42_9999");
    peer.asn = 4_242_420_000;
    assert_eq!(peer.gen_interface_name(), "dn42_0");
}

#[test]
fn test_gen_config_paths() {
    let mut peer = p();
    peer.asn = 4_242_420_253;
    assert_eq!(peer.gen_wireguard_config_path(), "/etc/wireguard/dn42_253.conf");
    assert_eq!(peer.gen_bird_config_path(), "/etc/bird/peers/dn42_253.conf");
}

#[test]
fn test_gen_listen_port() {
    let mut peer = p();
    peer.asn = 4_242_420_253;
    assert_eq!(peer.gen_listen_port(2).unwrap(), 20253);
    assert_eq!(peer.gen_listen_port(5).unwrap(), 50253);
    // A zero prefix lands below the usable range.
    assert!(peer.gen_listen_port(0).is_err());
    // A prefix of 7 lands above 65535.
    assert!(peer.gen_listen_port(7).is_err());
    peer.asn = 4_242_429_999;
    assert_eq!(peer.gen_listen_port(1).unwrap(), 19999);
}
