use vstd::prelude::*;

verus! {

/// One setting the service reads at startup.
#[derive(Debug, Clone, Copy, PartialEq, Eq, Structural)]
pub enum Setting {
    RegistryHost,
    RegistryUsername,
    RegistryPassword,
    ListenAddr,
    ListenPort,
    StaticDir,
    ExplorerUsername,
    ExplorerPassword,
}

impl Setting {
    /// The name of the environment variable the setting comes from.
    pub fn variable(&self) -> (r: &'static str)
        ensures
            *self == Setting::RegistryHost ==> r@ == "REGISTRY_HOST"@,
            *self == Setting::RegistryUsername ==> r@ == "REGISTRY_USERNAME"@,
            *self == Setting::RegistryPassword ==> r@ == "REGISTRY_PASSWORD"@,
            *self == Setting::ListenAddr ==> r@ == "LISTEN_ADDR"@,
            *self == Setting::ListenPort ==> r@ == "LISTEN_PORT"@,
            *self == Setting::StaticDir ==> r@ == "STATIC_DIR"@,
            *self == Setting::ExplorerUsername ==> r@ == "EXPLORER_USERNAME"@,
            *self == Setting::ExplorerPassword ==> r@ == "EXPLORER_PASSWORD"@,
    {
        match self {
            Setting::RegistryHost => "REGISTRY_HOST",
            Setting::RegistryUsername => "REGISTRY_USERNAME",
            Setting::RegistryPassword => "REGISTRY_PASSWORD",
            Setting::ListenAddr => "LISTEN_ADDR",
            Setting::ListenPort => "LISTEN_PORT",
            Setting::StaticDir => "STATIC_DIR",
            Setting::ExplorerUsername => "EXPLORER_USERNAME",
            Setting::ExplorerPassword => "EXPLORER_PASSWORD",
        }
    }
}

/// The settings as found in the environment, each possibly missing.
pub struct RawSettings {
    pub registry_host: Option<String>,
    pub registry_username: Option<String>,
    pub registry_password: Option<String>,
    pub listen_addr: Option<String>,
    pub listen_port: Option<String>,
    pub static_dir: Option<String>,
    pub explorer_username: Option<String>,
    pub explorer_password: Option<String>,
}

/// The service's configuration: where the registry is, how to log in to it,
/// where to listen, and the one credential that the explorer's users share.
pub struct Settings {
    pub registry_host: String,
    pub registry_username: String,
    pub registry_password: String,
    pub listen_addr: String,
    pub listen_port: String,
    pub static_dir: String,
    pub explorer_username: String,
    pub explorer_password: String,
}

/// The first missing setting, in the order the settings are listed.
pub open spec fn first_missing(raw: RawSettings) -> Option<Setting> {
    if raw.registry_host is None {
        Some(Setting::RegistryHost)
    } else if raw.registry_username is None {
        Some(Setting::RegistryUsername)
    } else if raw.registry_password is None {
        Some(Setting::RegistryPassword)
    } else if raw.listen_addr is None {
        Some(Setting::ListenAddr)
    } else if raw.listen_port is None {
        Some(Setting::ListenPort)
    } else if raw.static_dir is None {
        Some(Setting::StaticDir)
    } else if raw.explorer_username is None {
        Some(Setting::ExplorerUsername)
    } else if raw.explorer_password is None {
        Some(Setting::ExplorerPassword)
    } else {
        None
    }
}

/// Checks that every setting is present, and names the first one that is not.
pub fn check(raw: RawSettings) -> (r: Result<Settings, Setting>)
    ensures
        match first_missing(raw) {
            Some(s) => r == Err::<Settings, Setting>(s),
            None => r matches Ok(c) && {
                &&& Some(c.registry_host) == raw.registry_host
                &&& Some(c.registry_username) == raw.registry_username
                &&& Some(c.registry_password) == raw.registry_password
                &&& Some(c.listen_addr) == raw.listen_addr
                &&& Some(c.listen_port) == raw.listen_port
                &&& Some(c.static_dir) == raw.static_dir
                &&& Some(c.explorer_username) == raw.explorer_username
                &&& Some(c.explorer_password) == raw.explorer_password
            },
        },
{
    let RawSettings {
        registry_host,
        registry_username,
        registry_password,
        listen_addr,
        listen_port,
        static_dir,
        explorer_username,
        explorer_password,
    } = raw;
    let registry_host = match registry_host {
        Some(v) => v,
        None => return Err(Setting::RegistryHost),
    };
    let registry_username = match registry_username {
        Some(v) => v,
        None => return Err(Setting::RegistryUsername),
    };
    let registry_password = match registry_password {
        Some(v) => v,
        None => return Err(Setting::RegistryPassword),
    };
    let listen_addr = match listen_addr {
        Some(v) => v,
        None => return Err(Setting::ListenAddr),
    };
    let listen_port = match listen_port {
        Some(v) => v,
        None => return Err(Setting::ListenPort),
    };
    let static_dir = match static_dir {
        Some(v) => v,
        None => return Err(Setting::StaticDir),
    };
    let explorer_username = match explorer_username {
        Some(v) => v,
        None => return Err(Setting::ExplorerUsername),
    };
    let explorer_password = match explorer_password {
        Some(v) => v,
        None => return Err(Setting::ExplorerPassword),
    };
    Ok(
        Settings {
            registry_host,
            registry_username,
            registry_password,
            listen_addr,
            listen_port,
            static_dir,
            explorer_username,
            explorer_password,
        },
    )
}

/// Base URL of the registry.
pub fn registry_host(settings: &Settings) -> (r: &str)
    ensures
        r@ == settings.registry_host@,
{
    settings.registry_host.as_str()
}

/// User name the explorer logs in to the registry with.
pub fn registry_username(settings: &Settings) -> (r: &str)
    ensures
        r@ == settings.registry_username@,
{
    settings.registry_username.as_str()
}

/// Password the explorer logs in to the registry with.
pub fn registry_password(settings: &Settings) -> (r: &str)
    ensures
        r@ == settings.registry_password@,
{
    settings.registry_password.as_str()
}

/// Address the service listens on.
pub fn listen_addr(settings: &Settings) -> (r: &str)
    ensures
        r@ == settings.listen_addr@,
{
    settings.listen_addr.as_str()
}

/// Port the service listens on.
pub fn listen_port(settings: &Settings) -> (r: &str)
    ensures
        r@ == settings.listen_port@,
{
    settings.listen_port.as_str()
}

/// Directory of the static assets.
pub fn static_dir(settings: &Settings) -> (r: &str)
    ensures
        r@ == settings.static_dir@,
{
    settings.static_dir.as_str()
}

/// User name shared by the explorer's users.
pub fn explorer_username(settings: &Settings) -> (r: &str)
    ensures
        r@ == settings.explorer_username@,
{
    settings.explorer_username.as_str()
}

/// Password shared by the explorer's users.
pub fn explorer_password(settings: &Settings) -> (r: &str)
    ensures
        r@ == settings.explorer_password@,
{
    settings.explorer_password.as_str()
}

} // verus!
