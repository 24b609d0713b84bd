//! Service configuration: the server and logging settings, their defaults,
//! and the normalization the loader applies after parsing.
//!
//! Parsing the configuration file's text is simple I/O glue and stays with
//! the host binary; the rules applied to the parsed values — filling in an
//! empty log file path and anchoring a relative one at the current working
//! directory — live here, verified.

use vstd::prelude::*;
use vstd::string::*;

verus! {

/// Default logging level for the system.
pub const DEFAULT_LOG_LEVEL: &'static str = "INFO";

/// Default logging level for third-party libraries.
pub const DEFAULT_THIRD_PARTY_LOG_LEVEL: &'static str = "WARN";

/// Default log file.
pub const DEFAULT_LOG_FILE: &'static str = "/var/log/prism/fluxon-engine/fluxon-engine.log";

/// Default log retention days.
pub const DEFAULT_LOG_RETENTION: usize = 365;

/// Why a configuration file was rejected.
#[derive(Clone, Debug, PartialEq)]
pub enum ConfigError {
    /// The file held nothing.
    ConfigFileEmpty,
    /// The text did not parse as a configuration, with the parser's words.
    YamlConfigInvalid(String),
}

impl ConfigError {
    /// The error's message text.
    pub open spec fn message_spec(&self) -> Seq<char> {
        match self {
            ConfigError::ConfigFileEmpty => "config file is empty"@,
            ConfigError::YamlConfigInvalid(e) => "yaml config invalid: "@ + e@,
        }
    }

    /// Renders the error as its message text.
    pub fn message(&self) -> (r: String)
        ensures
            r@ == self.message_spec(),
    {
        match self {
            ConfigError::ConfigFileEmpty => String::from_str("config file is empty"),
            ConfigError::YamlConfigInvalid(e) => String::from_str("yaml config invalid: ").concat(
                e.as_str(),
            ),
        }
    }
}

/// Settings of the listening endpoint.
#[derive(Clone, Debug, PartialEq)]
pub struct ServerConfig {
    /// Port the server binds.
    pub port: u16,
}

impl Default for ServerConfig {
    /// The default endpoint: port 0.
    fn default() -> (c: ServerConfig)
        ensures
            c.port == 0,
    {
        ServerConfig { port: 0 }
    }
}

/// Settings of the logging system.
#[derive(Clone, Debug, PartialEq)]
pub struct LogConfig {
    /// Logging level of the system's own messages.
    pub level: String,
    /// Logging level of third-party libraries.
    pub third_party_log_level: String,
    /// Path of the log file.
    pub log_file: String,
    /// How many rotated log files to keep.
    pub retention: usize,
}

impl Default for LogConfig {
    /// The default logging settings.
    fn default() -> (c: LogConfig)
        ensures
            c.level@ == DEFAULT_LOG_LEVEL@,
            c.third_party_log_level@ == DEFAULT_THIRD_PARTY_LOG_LEVEL@,
            c.log_file@ == DEFAULT_LOG_FILE@,
            c.retention == DEFAULT_LOG_RETENTION,
    {
        LogConfig {
            level: String::from_str(DEFAULT_LOG_LEVEL),
            third_party_log_level: String::from_str(DEFAULT_THIRD_PARTY_LOG_LEVEL),
            log_file: String::from_str(DEFAULT_LOG_FILE),
            retention: DEFAULT_LOG_RETENTION,
        }
    }
}

/// The whole service configuration.
#[derive(Clone, Debug, PartialEq)]
pub struct Config {
    /// Settings of the listening endpoint.
    pub server: ServerConfig,
    /// Settings of the logging system.
    pub log: LogConfig,
    /// How many worker threads the asynchronous runtime uses.
    pub async_worker_thread_number: u16,
}

impl Default for Config {
    /// The default configuration: default endpoint and logging, 16 worker
    /// threads.
    fn default() -> (c: Config)
        ensures
            c.server.port == 0,
            c.log.level@ == DEFAULT_LOG_LEVEL@,
            c.log.third_party_log_level@ == DEFAULT_THIRD_PARTY_LOG_LEVEL@,
            c.log.log_file@ == DEFAULT_LOG_FILE@,
            c.log.retention == DEFAULT_LOG_RETENTION,
            c.async_worker_thread_number == 16,
    {
        Config {
            server: ServerConfig::default(),
            log: LogConfig::default(),
            async_worker_thread_number: 16,
        }
    }
}

/// Whether a path is absolute: it starts with a separator.
pub open spec fn is_absolute_path(p: Seq<char>) -> bool {
    p.len() > 0 && p[0] == '/'
}

/// A directory path joined with a relative path: a separator is put
/// between them unless the directory already ends with one.
pub open spec fn joined_path(dir: Seq<char>, rel: Seq<char>) -> Seq<char> {
    if dir.len() > 0 && dir[dir.len() - 1] == '/' {
        dir + rel
    } else {
        dir + "/"@ + rel
    }
}

/// The log file path after normalization: an empty path becomes the
/// default, a relative path is anchored at the working directory, an
/// absolute path stays as it is.
pub open spec fn normalized_log_file(log_file: Seq<char>, cwd: Seq<char>) -> Seq<char> {
    if log_file.len() == 0 {
        DEFAULT_LOG_FILE@
    } else if is_absolute_path(log_file) {
        log_file
    } else {
        joined_path(cwd, log_file)
    }
}

impl Config {
    /// Normalizes the log file path against the given working directory,
    /// leaving every other setting as it was: an empty path becomes the
    /// default, a relative one is anchored at the working directory.
    pub fn normalize_log_path(&mut self, cwd: &str)
        ensures
            final(self).server == old(self).server,
            final(self).async_worker_thread_number == old(self).async_worker_thread_number,
            final(self).log.level == old(self).log.level,
            final(self).log.third_party_log_level == old(self).log.third_party_log_level,
            final(self).log.retention == old(self).log.retention,
            final(self).log.log_file@ == normalized_log_file(old(self).log.log_file@, cwd@),
    {
        if self.log.log_file.as_str().is_empty() {
            self.log.log_file = String::from_str(DEFAULT_LOG_FILE);
        } else if self.log.log_file.as_str().get_char(0) != '/' {
            let mut joined = String::from_str(cwd);
            let dir_len = cwd.unicode_len();
            if dir_len == 0 || cwd.get_char(dir_len - 1) != '/' {
                joined.append("/");
            }
            joined.append(self.log.log_file.as_str());
            self.log.log_file = joined;
        }
    }
}

/// The character for one decimal digit.
pub open spec fn digit_char(d: nat) -> char {
    if d == 0 {
        '0'
    } else if d == 1 {
        '1'
    } else if d == 2 {
        '2'
    } else if d == 3 {
        '3'
    } else if d == 4 {
        '4'
    } else if d == 5 {
        '5'
    } else if d == 6 {
        '6'
    } else if d == 7 {
        '7'
    } else if d == 8 {
        '8'
    } else {
        '9'
    }
}

/// The decimal digits of a number, most significant first, with no
/// leading zero except for the number zero itself.
pub open spec fn decimal_rep(n: nat) -> Seq<char>
    decreases n,
{
    if n < 10 {
        seq![digit_char(n)]
    } else {
        decimal_rep(n / 10).push(digit_char(n % 10))
    }
}

/// One decimal digit as text.
fn digit_str(d: u16) -> (r: &'static str)
    requires
        d < 10,
    ensures
        r@ == seq![digit_char(d as nat)],
{
    proof {
        reveal_strlit("0");
        reveal_strlit("1");
        reveal_strlit("2");
        reveal_strlit("3");
        reveal_strlit("4");
        reveal_strlit("5");
        reveal_strlit("6");
        reveal_strlit("7");
        reveal_strlit("8");
        reveal_strlit("9");
    }
    let r = match d {
        0 => "0",
        1 => "1",
        2 => "2",
        3 => "3",
        4 => "4",
        5 => "5",
        6 => "6",
        7 => "7",
        8 => "8",
        _ => "9",
    };
    proof {
        assert(r@ =~= seq![digit_char(d as nat)]);
    }
    r
}

/// Renders a port number in decimal.
pub fn u16_to_decimal(n: u16) -> (r: String)
    ensures
        r@ == decimal_rep(n as nat),
    decreases n,
{
    if n < 10 {
        String::from_str(digit_str(n))
    } else {
        let prefix = u16_to_decimal(n / 10);
        prefix.concat(digit_str(n % 10))
    }
}

impl ServerConfig {
    /// The address the server binds: every interface, at the configured
    /// port.
    pub fn listen_address(&self) -> (r: String)
        ensures
            r@ == "0.0.0.0:"@ + decimal_rep(self.port as nat),
    {
        String::from_str("0.0.0.0:").concat(u16_to_decimal(self.port).as_str())
    }
}

/// The logging specification string the logger is initialized with: the
/// third-party level, then the system's own module set to its own level.
pub fn log_level_spec_string(third_party_level: &str, module: &str, level: &str) -> (r: String)
    ensures
        r@ == third_party_level@ + ","@ + module@ + "="@ + level@,
{
    let mut r = String::from_str(third_party_level);
    r.append(",");
    r.append(module);
    r.append("=");
    r.append(level);
    r
}

} // verus!
