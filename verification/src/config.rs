use vstd::prelude::*;

verus! {

/// The two supported init systems. Everything else is a fatal
/// startup-configuration error, never a per-request one.
#[derive(PartialEq, Eq, Structural, Clone, Copy, Debug)]
pub enum InitSystem {
    Systemd,
    OpenRc,
}

/// Raw process configuration as read from the configuration file, before
/// the startup checks.
pub struct ApiConfig {
    pub api_port: u16,
    pub listen_address_v4: String,
    pub listen_address_v6: String,
    pub secret: String,
}

pub struct PeerConfig {
    pub link_local: String,
    pub wireguard_private_key: String,
    pub port_prefix_number: u16,
}

pub struct EnvironmentConfig {
    pub init_system: String,
    pub rc_service_path: String,
    pub rc_update_path: String,
    pub systemctl_path: String,
    pub birdc_path: String,
}

pub struct AppConfig {
    pub api: ApiConfig,
    pub peer: PeerConfig,
    pub env: EnvironmentConfig,
}

/// Validated, process-wide static configuration: loaded once at startup,
/// immutable afterwards, passed by reference into the workflow.
pub struct StaticConfig {
    pub link_local: String,
    pub wireguard_private_key: String,
    pub port_prefix_number: u16,
    pub init_system: InitSystem,
    pub systemctl_path: String,
    pub rc_service_path: String,
    pub rc_update_path: String,
    pub birdc_path: String,
}

/// The view of a validated configuration: every textual field as a
/// character sequence.
#[verifier::ext_equal]
pub ghost struct StaticConfigV {
    pub link_local: Seq<char>,
    pub wireguard_private_key: Seq<char>,
    pub port_prefix_number: u16,
    pub init_system: InitSystem,
    pub systemctl_path: Seq<char>,
    pub rc_service_path: Seq<char>,
    pub rc_update_path: Seq<char>,
    pub birdc_path: Seq<char>,
}

impl View for StaticConfig {
    type V = StaticConfigV;

    open spec fn view(&self) -> StaticConfigV {
        StaticConfigV {
            link_local: self.link_local@,
            wireguard_private_key: self.wireguard_private_key@,
            port_prefix_number: self.port_prefix_number,
            init_system: self.init_system,
            systemctl_path: self.systemctl_path@,
            rc_service_path: self.rc_service_path@,
            rc_update_path: self.rc_update_path@,
            birdc_path: self.birdc_path@,
        }
    }
}

/// Everything the startup checks can reject, one variant per check, in the
/// order the checks run.
#[derive(PartialEq, Eq, Structural, Clone, Copy, Debug)]
pub enum ConfigError {
    NoLinkLocal,
    NoPrivateKey,
    InvalidApiPort,
    NoListenAddress,
    InvalidPortPrefix,
    UnsupportedInitSystem,
    NoSystemctlPath,
    NoRcServicePath,
    NoRcUpdatePath,
    NoBirdcPath,
}

/// The operator-facing description of each failed startup check.
pub open spec fn spec_config_error_message(e: &ConfigError) -> Seq<char> {
    match e {
        ConfigError::NoLinkLocal => "No link-local address found"@,
        ConfigError::NoPrivateKey => "No wireguard private key found"@,
        ConfigError::InvalidApiPort => "Invalid API port"@,
        ConfigError::NoListenAddress => "No listen address found"@,
        ConfigError::InvalidPortPrefix => "Port prefix number must be between 1 and 5"@,
        ConfigError::UnsupportedInitSystem => "Unsupported init system"@,
        ConfigError::NoSystemctlPath => "Environment: systemctl binary path is empty"@,
        ConfigError::NoRcServicePath => "Environment: rc-service binary path is empty"@,
        ConfigError::NoRcUpdatePath => "Environment: rc-update binary path is empty"@,
        ConfigError::NoBirdcPath => "Environment: birdc binary path is empty"@,
    }
}

impl ConfigError {
    /// The operator-facing description of the failed check.
    pub fn message(&self) -> (r: String)
        ensures
            r@ == spec_config_error_message(self),
    {
        match self {
            ConfigError::NoLinkLocal => String::from_str("No link-local address found"),
            ConfigError::NoPrivateKey => String::from_str("No wireguard private key found"),
            ConfigError::InvalidApiPort => String::from_str("Invalid API port"),
            ConfigError::NoListenAddress => String::from_str("No listen address found"),
            ConfigError::InvalidPortPrefix => String::from_str(
                "Port prefix number must be between 1 and 5",
            ),
            ConfigError::UnsupportedInitSystem => String::from_str("Unsupported init system"),
            ConfigError::NoSystemctlPath => String::from_str(
                "Environment: systemctl binary path is empty",
            ),
            ConfigError::NoRcServicePath => String::from_str(
                "Environment: rc-service binary path is empty",
            ),
            ConfigError::NoRcUpdatePath => String::from_str(
                "Environment: rc-update binary path is empty",
            ),
            ConfigError::NoBirdcPath => String::from_str("Environment: birdc binary path is empty"),
        }
    }
}

/// Which init system a configured name selects, if any.
pub open spec fn spec_init_system(s: Seq<char>) -> Option<InitSystem> {
    if s == "systemd"@ {
        Some(InitSystem::Systemd)
    } else if s == "openrc"@ {
        Some(InitSystem::OpenRc)
    } else {
        None
    }
}

pub fn parse_init_system(s: &String) -> (r: Option<InitSystem>)
    ensures
        r == spec_init_system(s@),
{
    let systemd = String::from_str("systemd");
    let openrc = String::from_str("openrc");
    if String::eq(s, &systemd) {
        Some(InitSystem::Systemd)
    } else if String::eq(s, &openrc) {
        Some(InitSystem::OpenRc)
    } else {
        None
    }
}

/// The first startup check a raw configuration fails, if it fails one.
/// The checks run in a fixed order and stop at the first failure.
pub open spec fn spec_check_config(c: &AppConfig) -> Option<ConfigError> {
    if c.peer.link_local@.len() == 0 {
        Some(ConfigError::NoLinkLocal)
    } else if c.peer.wireguard_private_key@.len() == 0 {
        Some(ConfigError::NoPrivateKey)
    } else if c.api.api_port == 0 {
        Some(ConfigError::InvalidApiPort)
    } else if c.api.listen_address_v4@.len() == 0 && c.api.listen_address_v6@.len() == 0 {
        Some(ConfigError::NoListenAddress)
    } else if c.peer.port_prefix_number == 0 || c.peer.port_prefix_number >= 6 {
        Some(ConfigError::InvalidPortPrefix)
    } else if spec_init_system(c.env.init_system@) is None {
        Some(ConfigError::UnsupportedInitSystem)
    } else if spec_init_system(c.env.init_system@) == Some(InitSystem::Systemd)
        && c.env.systemctl_path@.len() == 0 {
        Some(ConfigError::NoSystemctlPath)
    } else if spec_init_system(c.env.init_system@) == Some(InitSystem::OpenRc)
        && c.env.rc_service_path@.len() == 0 {
        Some(ConfigError::NoRcServicePath)
    } else if spec_init_system(c.env.init_system@) == Some(InitSystem::OpenRc)
        && c.env.rc_update_path@.len() == 0 {
        Some(ConfigError::NoRcUpdatePath)
    } else if c.env.birdc_path@.len() == 0 {
        Some(ConfigError::NoBirdcPath)
    } else {
        None
    }
}

/// Runs the startup checks on a raw configuration and, when all pass,
/// produces the validated static configuration the workflow runs with.
/// Fails with exactly the first check `spec_check_config` names.
pub fn check_config(c: AppConfig) -> (r: Result<StaticConfig, ConfigError>)
    ensures
        (match r {
            Ok(sc) => spec_check_config(&c) is None && sc@.link_local == c.peer.link_local@
                && sc@.wireguard_private_key == c.peer.wireguard_private_key@
                && sc@.port_prefix_number == c.peer.port_prefix_number && Some(sc@.init_system)
                == spec_init_system(c.env.init_system@) && sc@.systemctl_path
                == c.env.systemctl_path@ && sc@.rc_service_path == c.env.rc_service_path@
                && sc@.rc_update_path == c.env.rc_update_path@ && sc@.birdc_path
                == c.env.birdc_path@,
            Err(e) => spec_check_config(&c) == Some(e),
        }),
{
    if c.peer.link_local.as_str().is_empty() {
        return Err(ConfigError::NoLinkLocal);
    }
    if c.peer.wireguard_private_key.as_str().is_empty() {
        return Err(ConfigError::NoPrivateKey);
    }
    if c.api.api_port == 0 {
        return Err(ConfigError::InvalidApiPort);
    }
    if c.api.listen_address_v4.as_str().is_empty() && c.api.listen_address_v6.as_str().is_empty() {
        return Err(ConfigError::NoListenAddress);
    }
    if c.peer.port_prefix_number == 0 || c.peer.port_prefix_number >= 6 {
        return Err(ConfigError::InvalidPortPrefix);
    }
    let init = match parse_init_system(&c.env.init_system) {
        Some(init) => init,
        None => {
            return Err(ConfigError::UnsupportedInitSystem);
        },
    };
    if matches!(init, InitSystem::Systemd) && c.env.systemctl_path.as_str().is_empty() {
        return Err(ConfigError::NoSystemctlPath);
    }
    if matches!(init, InitSystem::OpenRc) && c.env.rc_service_path.as_str().is_empty() {
        return Err(ConfigError::NoRcServicePath);
    }
    if matches!(init, InitSystem::OpenRc) && c.env.rc_update_path.as_str().is_empty() {
        return Err(ConfigError::NoRcUpdatePath);
    }
    if c.env.birdc_path.as_str().is_empty() {
        return Err(ConfigError::NoBirdcPath);
    }
    Ok(
        StaticConfig {
            link_local: c.peer.link_local,
            wireguard_private_key: c.peer.wireguard_private_key,
            port_prefix_number: c.peer.port_prefix_number,
            init_system: init,
            systemctl_path: c.env.systemctl_path,
            rc_service_path: c.env.rc_service_path,
            rc_update_path: c.env.rc_update_path,
            birdc_path: c.env.birdc_path,
        },
    )
}

} // verus!
