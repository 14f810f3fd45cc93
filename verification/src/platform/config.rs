//! Settings of the platform as its settings file holds them, and where
//! that file lives.
use vstd::prelude::*;
use crate::json::JsonValue;

verus! {

/// Address and port of the broker.
pub struct BrokerInfo {
    pub addr: String,
    pub port: u16,
}

/// Name of the platform.
pub struct PlatformInfo {
    pub name: Option<String>,
}

/// Credentials on the broker.
pub struct CredentialsInfo {
    pub user: Option<String>,
    pub pass: Option<String>,
}

/// Settings of the platform services.
pub struct ServicesInfo {
    pub retry_delay: Option<u64>,
    pub enable_plbd: Option<bool>,
}

/// The content of the settings file.
pub struct ConfigJson {
    pub broker: BrokerInfo,
    pub platform: Option<PlatformInfo>,
    pub credentials: Option<CredentialsInfo>,
    pub services: Option<ServicesInfo>,
}

/// The settings written into a new settings file: a broker on `localhost`
/// port 1883 and no other section.
pub fn default_file_config() -> (c: ConfigJson)
    ensures
        c.broker.addr@ == "localhost"@,
        c.broker.port == 1883,
        c.platform is None,
        c.credentials is None,
        c.services is None,
{
    ConfigJson {
        broker: BrokerInfo { addr: String::from_str("localhost"), port: 1883 },
        platform: None,
        credentials: None,
        services: None,
    }
}

/// Manager of the platform settings.
pub struct ConfigManager {
    info: ConfigJson,
}

impl ConfigManager {
    pub closed spec fn info_view(&self) -> ConfigJson {
        self.info
    }

    /// Settings before any file is read: a broker of empty address and port
    /// 0, no other section.
    pub fn new() -> (m: ConfigManager)
        ensures
            m.info_view().broker.addr@ == Seq::<char>::empty(),
            m.info_view().broker.port == 0,
            m.info_view().platform is None,
            m.info_view().credentials is None,
            m.info_view().services is None,
    {
        ConfigManager {
            info: ConfigJson {
                broker: BrokerInfo { addr: String::new(), port: 0 },
                platform: None,
                credentials: None,
                services: None,
            },
        }
    }

    /// Replaces the settings by those read from the settings file.
    pub fn set_config(&mut self, info: ConfigJson)
        ensures
            final(self).info_view() == info,
    {
        self.info = info;
    }

    pub fn get_broker_info(&self) -> (b: &BrokerInfo)
        ensures
            *b == self.info_view().broker,
    {
        &self.info.broker
    }

    pub fn get_platform_info(&self) -> (p: Option<&PlatformInfo>)
        ensures
            match p {
                Some(x) => self.info_view().platform == Some(*x),
                None => self.info_view().platform is None,
            },
    {
        self.info.platform.as_ref()
    }

    pub fn get_credentials_info(&self) -> (c: Option<&CredentialsInfo>)
        ensures
            match c {
                Some(x) => self.info_view().credentials == Some(*x),
                None => self.info_view().credentials is None,
            },
    {
        self.info.credentials.as_ref()
    }

    pub fn get_services_info(&self) -> (s: Option<&ServicesInfo>)
        ensures
            match s {
                Some(x) => self.info_view().services == Some(*x),
                None => self.info_view().services is None,
            },
    {
        self.info.services.as_ref()
    }
}

/// The directory of the settings files on the system `os`: `/etc/panduza`
/// on Linux, `C:\ProgramData\Panduza` on Windows, none elsewhere.
pub open spec fn spec_config_dir(os: Seq<char>) -> Option<Seq<char>> {
    if os == "linux"@ {
        Some("/etc/panduza"@)
    } else if os == "windows"@ {
        Some("C:\\ProgramData\\Panduza"@)
    } else {
        None
    }
}

/// The directory of the settings files on the system named `os` (as
/// `std::env::consts::OS` names it).
pub fn get_default_config_dir(os: &str) -> (d: Option<&'static str>)
    ensures
        match d {
            Some(x) => spec_config_dir(os@) == Some(x@),
            None => spec_config_dir(os@) is None,
        },
{
    if os.eq("linux") {
        Some("/etc/panduza")
    } else if os.eq("windows") {
        Some("C:\\ProgramData\\Panduza")
    } else {
        None
    }
}

/// A device of the device tree: its producer reference, its name and its settings.
pub struct DeviceInfo {
    pub dref: String,
    pub name: String,
    pub settings: Option<JsonValue>,
}

/// Manager of the device tree.
pub struct DeviceTreeManager {
    devices: Vec<DeviceInfo>,
}

impl DeviceTreeManager {
    pub closed spec fn devices_view(&self) -> Seq<DeviceInfo> {
        self.devices@
    }

    /// An empty tree.
    pub fn new() -> (m: DeviceTreeManager)
        ensures
            m.devices_view().len() == 0,
    {
        DeviceTreeManager { devices: Vec::new() }
    }

    /// Replaces the tree by the devices read from the tree file.
    pub fn set_tree(&mut self, devices: Vec<DeviceInfo>)
        ensures
            final(self).devices_view() == devices@,
    {
        self.devices = devices;
    }

    pub fn get_tree(&self) -> (t: &Vec<DeviceInfo>)
        ensures
            t@ == self.devices_view(),
    {
        &self.devices
    }
}

/// Data shared by the tasks of the platform; it has no field.
pub struct PlatformInner {}

impl PlatformInner {
    pub fn new() -> (p: PlatformInner)
    {
        PlatformInner {}
    }
}

} // verus!
