use vstd::prelude::*;

verus! {

/// Device configuration read from the TF card.
#[derive(Debug, PartialEq, Eq)]
pub struct Config {
    pub wifi_ssid: String,
    pub wifi_password: String,
    pub base_url: String,
    pub secret_key: String,
}

impl Clone for Config {
    fn clone(&self) -> (result: Self)
        ensures
            result == *self,
    {
        Config {
            wifi_ssid: self.wifi_ssid.clone(),
            wifi_password: self.wifi_password.clone(),
            base_url: self.base_url.clone(),
            secret_key: self.secret_key.clone(),
        }
    }
}

/// Where the device reads its configuration.
pub const CONFIG_PATH: &'static str = "/sdcard/config.toml";

impl Config {
    /// A configuration is usable when the Wi-Fi network, the server base URL and the
    /// device secret are all present.
    pub open spec fn spec_has_required_values(&self) -> bool {
        &&& self.wifi_ssid@.len() > 0
        &&& self.base_url@.len() > 0
        &&& self.secret_key@.len() > 0
    }

    pub fn has_required_values(&self) -> (result: bool)
        ensures
            result == self.spec_has_required_values(),
    {
        !self.wifi_ssid.as_str().is_empty() && !self.base_url.as_str().is_empty()
            && !self.secret_key.as_str().is_empty()
    }
}

/// What reading the configuration file gave: the file's settings when it
/// parsed, or why there are none.
#[derive(Debug, PartialEq, Eq)]
pub enum ConfigRead {
    Parsed(Config),
    ParseError,
    Missing,
    ReadError,
    MountError,
}

/// What the self-test found of the memory card.
#[derive(Clone, Copy, Debug, PartialEq, Eq, Structural)]
pub enum StorageProbe {
    Available,
    MountError,
}

/// What the self-test found of the configuration.
#[derive(Clone, Copy, Debug, PartialEq, Eq, Structural)]
pub enum ConfigProbe {
    Valid,
    Incomplete,
    ParseError,
    Missing,
    ReadError,
}

/// The configuration found by the self-test, with the configuration itself
/// when it is usable.
#[derive(Debug, PartialEq, Eq)]
pub struct ProbedConfig {
    pub probe: ConfigProbe,
    pub value: Option<Config>,
}

/// The card is available unless it could not be mounted; a missing or
/// unreadable file still means the card is there.
pub fn probe_storage(read: &ConfigRead) -> (probe: StorageProbe)
    ensures
        probe == (if read is MountError {
            StorageProbe::MountError
        } else {
            StorageProbe::Available
        }),
{
    match read {
        ConfigRead::MountError => StorageProbe::MountError,
        _ => StorageProbe::Available,
    }
}

/// Judges the configuration file: valid only when it parsed and has every
/// required value, which is then kept; otherwise why it is not.
pub fn probe_config(read: ConfigRead) -> (probed: ProbedConfig)
    ensures
        match read {
            ConfigRead::Parsed(config) => if config.spec_has_required_values() {
                probed == (ProbedConfig { probe: ConfigProbe::Valid, value: Some(config) })
            } else {
                probed == (ProbedConfig { probe: ConfigProbe::Incomplete, value: None })
            },
            ConfigRead::ParseError => probed == (ProbedConfig { probe: ConfigProbe::ParseError, value: None }),
            ConfigRead::Missing => probed == (ProbedConfig { probe: ConfigProbe::Missing, value: None }),
            ConfigRead::ReadError => probed == (ProbedConfig { probe: ConfigProbe::ReadError, value: None }),
            ConfigRead::MountError => probed == (ProbedConfig { probe: ConfigProbe::ReadError, value: None }),
        },
{
    match read {
        ConfigRead::Parsed(config) => if config.has_required_values() {
            ProbedConfig { probe: ConfigProbe::Valid, value: Some(config) }
        } else {
            ProbedConfig { probe: ConfigProbe::Incomplete, value: None }
        },
        ConfigRead::ParseError => ProbedConfig { probe: ConfigProbe::ParseError, value: None },
        ConfigRead::Missing => ProbedConfig { probe: ConfigProbe::Missing, value: None },
        ConfigRead::ReadError | ConfigRead::MountError => ProbedConfig { probe: ConfigProbe::ReadError, value: None },
    }
}

/// The configuration a device run uses: the parsed one when it has every
/// required value, none otherwise.
pub fn usable_config(read: ConfigRead) -> (config: Option<Config>)
    ensures
        match read {
            ConfigRead::Parsed(parsed) => config == (if parsed.spec_has_required_values() {
                Some(parsed)
            } else {
                None::<Config>
            }),
            _ => config is None,
        },
{
    match read {
        ConfigRead::Parsed(config) => if config.has_required_values() {
            Some(config)
        } else {
            None
        },
        _ => None,
    }
}

} // verus!
