//! The structure of a configuration file: runtime settings, server
//! settings, the admin interface and the modules to load at startup.

use crate::config::RuntimeConfig;
use crate::defaults;
use crate::error::io_error_text;
use crate::text::{concat2, concat3, decimal, decimal_string};
use vstd::prelude::*;
use vstd::string::*;

verus! {

/// Server settings of a configuration file.
#[derive(Debug, Clone)]
pub struct ServerConfigFile {
    /// Address to bind to, such as `0.0.0.0:8080`.
    pub bind_addr: String,
    /// Request timeout, in seconds.
    pub request_timeout_secs: u64,
    /// Shut down gracefully on a signal.
    pub graceful_shutdown: bool,
}

/// Settings of the admin interface.
#[derive(Debug, Clone)]
pub struct AdminConfig {
    /// The admin interface is wanted.
    pub enabled: bool,
    /// The token that callers must present.
    pub token: Option<String>,
    /// URL prefix of the admin interface.
    pub prefix: String,
}

/// A module to load at startup.
#[derive(Debug, Clone)]
pub struct ModuleEntry {
    /// Identifier under which the module is cached.
    pub id: String,
    /// Path of the module file.
    pub path: String,
}

/// A whole configuration file.
#[derive(Debug, Clone)]
pub struct ConfigFile {
    pub runtime: RuntimeConfig,
    pub server: ServerConfigFile,
    pub admin: AdminConfig,
    pub modules: Vec<ModuleEntry>,
}

/// Why a configuration file could not be used.
#[derive(Debug)]
pub enum ConfigFileError {
    /// The file could not be read.
    Io { path: String, source: std::io::Error },
    /// The file is not a valid configuration.
    Parse { message: String },
}

impl ServerConfigFile {
    /// The default server settings hold exactly these values.
    pub open spec fn is_default(&self) -> bool {
        &&& self.bind_addr@ == "0.0.0.0:8080"@
        &&& self.request_timeout_secs == 30
        &&& self.graceful_shutdown
    }
}

impl Default for ServerConfigFile {
    fn default() -> (r: Self)
        ensures
            r.is_default(),
    {
        ServerConfigFile {
            bind_addr: defaults::bind_addr(),
            request_timeout_secs: defaults::request_timeout_secs(),
            graceful_shutdown: defaults::graceful_shutdown(),
        }
    }
}

impl AdminConfig {
    /// The default admin settings: disabled, without a token, under
    /// `/admin`.
    pub open spec fn is_default(&self) -> bool {
        &&& !self.enabled
        &&& self.token is None
        &&& self.prefix@ == "/admin"@
    }

    /// Whether the admin interface can be served: it is wanted and a token
    /// is set.
    pub fn is_configured(&self) -> (r: bool)
        ensures
            r == (self.enabled && self.token is Some),
    {
        self.enabled && self.token.is_some()
    }
}

impl Default for AdminConfig {
    fn default() -> (r: Self)
        ensures
            r.is_default(),
    {
        AdminConfig { enabled: false, token: None, prefix: defaults::admin_prefix() }
    }
}

impl Default for ConfigFile {
    fn default() -> (r: Self)
        ensures
            r.runtime.engine.is_default(),
            r.runtime.execution.is_default(),
            r.server.is_default(),
            r.admin.is_default(),
            r.modules@.len() == 0,
    {
        ConfigFile {
            runtime: RuntimeConfig::default(),
            server: ServerConfigFile::default(),
            admin: AdminConfig::default(),
            modules: Vec::new(),
        }
    }
}

/// The admin settings in effect: the interface is wanted where the command
/// line or the file wants it, and the token of the command line goes before
/// the token of the file.
pub open spec fn admin_in_effect(
    enable_flag: bool,
    token_flag: Option<String>,
    file: AdminConfig,
) -> AdminConfig {
    AdminConfig {
        enabled: enable_flag || file.enabled,
        token: if token_flag is Some {
            token_flag
        } else {
            file.token
        },
        prefix: file.prefix,
    }
}

/// The address to bind to, as text: the address of the command line; or
/// else every interface at the port of the command line; or else the
/// address of the file.
pub open spec fn bind_text(bind: Option<Seq<char>>, port: Option<u16>, configured: Seq<char>)
    -> Seq<char> {
    match bind {
        Some(address) => address,
        None => match port {
            Some(port) => "0.0.0.0:"@ + decimal(port as nat),
            None => configured,
        },
    }
}

/// The admin settings in effect, from the command line and the file.
pub fn merge_admin(enable_flag: bool, token_flag: Option<String>, file: AdminConfig) -> (r:
    AdminConfig)
    ensures
        r == admin_in_effect(enable_flag, token_flag, file),
{
    let token = match token_flag {
        Some(token) => Some(token),
        None => file.token,
    };
    AdminConfig { enabled: enable_flag || file.enabled, token, prefix: file.prefix }
}

/// The address to bind to, as text, from the command line and the file.
pub fn resolve_bind_text(bind: Option<&str>, port: Option<u16>, configured: &str) -> (r: String)
    ensures
        r@ == bind_text(
            match bind {
                Some(address) => Some(address@),
                None => None,
            },
            port,
            configured@,
        ),
{
    match bind {
        Some(address) => String::from_str(address),
        None => match port {
            Some(port) => {
                let number = decimal_string(port as u64);
                concat2("0.0.0.0:", number.as_str())
            },
            None => String::from_str(configured),
        },
    }
}

impl ConfigFileError {
    /// Whether `s` is the line of text that describes the error. The text
    /// of an I/O error comes from the operating system; only the beginning
    /// of the line is determined here.
    pub open spec fn described_by(&self, s: Seq<char>) -> bool {
        match self {
            ConfigFileError::Io { path, source } => ("Failed to read config file '"@ + path@
                + "': "@).is_prefix_of(s),
            ConfigFileError::Parse { message } => s == "Failed to parse config file: "@
                + message@,
        }
    }

    /// Renders the error as text.
    pub fn to_string(&self) -> (s: String)
        ensures
            self.described_by(s@),
    {
        match self {
            ConfigFileError::Io { path, source } => {
                let mut s = concat3("Failed to read config file '", path.as_str(), "': ");
                let ghost front = s@;
                let detail = io_error_text(source);
                s.append(detail.as_str());
                assert(s@.subrange(0, front.len() as int) =~= front);
                s
            },
            ConfigFileError::Parse { message } => concat2(
                "Failed to parse config file: ",
                message.as_str(),
            ),
        }
    }
}

} // verus!
