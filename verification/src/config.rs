//! Server configuration: the settings, their defaults, and the checks and parsing
//! applied to values that come from the environment.
use vstd::prelude::*;
use crate::text::{decimal, push_char, push_decimal, same_text, trim, trim_text, ends_with_char};
use vstd::string::StrSliceExecFns;
use vstd::string::StringExecFns;

verus! {

/// The environment the application runs in.
#[derive(Clone, Copy, Debug, PartialEq, Eq, Structural)]
pub enum Environment {
    Dev,
    Prod,
}

/// Where the server listens.
pub struct SeverConfig {
    /// The address (IPv4 or IPv6) the TCP listener binds to, as text.
    pub address: String,
    /// The port the TCP listener binds to.
    pub port: u16,
}

/// The database settings.
pub struct DatabaseConfig {
    /// The path to the database file, or `:memory:`.
    pub path: String,
    /// Number of connections kept in the connection pool.
    pub pool_size: usize,
}

/// The logging settings.
pub struct LogConfig {
    /// The minimum level of messages that are logged, or `NONE`.
    pub minimum_level: String,
    /// Where logs go: `:stdout:`, `:stderr:`, a directory (trailing `/`) or a file.
    pub targets: Vec<String>,
}

/// The storage settings.
pub struct StorageConfig {
    /// The storage directory, or `:memory:`.
    pub dir: String,
    /// The storage limit for all files, in bytes.
    pub limit: usize,
}

/// The whole configuration of the server.
pub struct AppConfig {
    pub env: Environment,
    pub server: SeverConfig,
    pub db: DatabaseConfig,
    pub storage: StorageConfig,
    pub log: LogConfig,
}

/// The accepted minimum log levels.
pub open spec fn valid_log_level(level: Seq<char>) -> bool {
    ||| level == "TRACE"@
    ||| level == "DEBUG"@
    ||| level == "INFO"@
    ||| level == "WARN"@
    ||| level == "ERROR"@
    ||| level == "NONE"@
}

/// Checks a configured minimum log level: one of `TRACE`, `DEBUG`, `INFO`, `WARN`,
/// `ERROR` and `NONE`, else the error `Invalid log level`.
pub fn is_valid_log_level(level: &String) -> (result: Result<(), String>)
    ensures
        result is Ok <==> valid_log_level(level@),
        result matches Err(message) ==> message@ == "Invalid log level"@,
{
    let level: &str = level.as_str();
    if same_text(level, "TRACE") || same_text(level, "DEBUG") || same_text(level, "INFO")
        || same_text(level, "WARN") || same_text(level, "ERROR") || same_text(level, "NONE") {
        Ok(())
    } else {
        Err(String::from_str("Invalid log level"))
    }
}

/// The pieces of `s` between the occurrences of `separator`, as `str::split` gives
/// them: one more piece than there are separators, empty pieces included.
pub open spec fn split_fields(s: Seq<char>, separator: char) -> Seq<Seq<char>>
    decreases s.len(),
{
    if s.len() == 0 {
        seq![Seq::empty()]
    } else {
        let fields = split_fields(s.drop_last(), separator);
        if s.last() == separator {
            fields.push(Seq::empty())
        } else {
            fields.update(fields.len() - 1, fields.last().push(s.last()))
        }
    }
}

/// The comma-separated items of a list, each without surrounding white space.
pub open spec fn list_items(s: Seq<char>) -> Seq<Seq<char>> {
    split_fields(s, ',').map_values(|field: Seq<char>| trim(field))
}

proof fn lemma_split_fields_nonempty(s: Seq<char>, separator: char)
    ensures
        split_fields(s, separator).len() >= 1,
    decreases s.len(),
{
    if s.len() > 0 {
        lemma_split_fields_nonempty(s.drop_last(), separator);
    }
}

/// The views of a list of strings.
pub open spec fn texts(v: Seq<String>) -> Seq<Seq<char>> {
    v.map_values(|t: String| t@)
}

/// Splits a list given in the environment at each `,` and trims every item.
pub fn parse_list(s: &str) -> (result: Result<Vec<String>, std::convert::Infallible>)
    ensures
        result matches Ok(items) && texts(items@) == list_items(s@),
{
    let n = s.unicode_len();
    let mut items: Vec<String> = Vec::new();
    let mut start: usize = 0;
    let mut i: usize = 0;
    while i < n
        invariant
            n == s@.len(),
            start <= i <= n,
            ({
                let fields = split_fields(s@.subrange(0, i as int), ',');
                &&& fields.len() == items@.len() + 1
                &&& fields.last() == s@.subrange(start as int, i as int)
                &&& forall|k: int| 0 <= k < items@.len() ==> #[trigger] items@[k]@ == trim(fields[k])
            }),
        decreases n - i,
    {
        let ghost before = s@.subrange(0, i as int);
        let ghost after = s@.subrange(0, i + 1);
        assert(after.drop_last() =~= before);
        proof {
            lemma_split_fields_nonempty(before, ',');
        }
        if s.get_char(i) == ',' {
            let piece = trim_text(s.substring_char(start, i));
            items.push(piece);
            start = i + 1;
            assert(s@.subrange(start as int, i + 1) =~= Seq::<char>::empty());
        } else {
            assert(s@.subrange(start as int, i + 1) =~= s@.subrange(start as int, i as int).push(s@[i as int]));
        }
        i = i + 1;
    }
    let last = trim_text(s.substring_char(start, n));
    items.push(last);
    proof {
        assert(s@.subrange(0, n as int) =~= s@);
        let fields = split_fields(s@, ',');
        assert(texts(items@) =~= list_items(s@));
    }
    Ok(items)
}

/// The host part of a socket address: an IPv6 address (one that holds a `:`) in
/// square brackets, any other address as it is.
pub open spec fn host_text(address: Seq<char>) -> Seq<char> {
    if address.contains(':') {
        seq!['['] + address + seq![']']
    } else {
        address
    }
}

/// Whether the text holds a `:`.
fn holds_colon(text: &str) -> (found: bool)
    ensures
        found == text@.contains(':'),
{
    let n = text.unicode_len();
    let mut i: usize = 0;
    while i < n
        invariant
            n == text@.len(),
            i <= n,
            forall|k: int| 0 <= k < i ==> text@[k] != ':',
        decreases n - i,
    {
        if text.get_char(i) == ':' {
            assert(text@[i as int] == ':');
            return true;
        }
        i = i + 1;
    }
    false
}

impl AppConfig {
    /// The address to bind to: `address:port`, with an IPv6 address (one that holds
    /// a `:`) in square brackets, as socket addresses are written.
    pub fn addr(&self) -> (addr: String)
        ensures
            addr@ == host_text(self.server.address@) + seq![':'] + decimal(self.server.port as nat),
    {
        let ipv6 = holds_colon(self.server.address.as_str());
        let mut addr = String::new();
        if ipv6 {
            push_char(&mut addr, '[');
        }
        addr.append(self.server.address.as_str());
        if ipv6 {
            push_char(&mut addr, ']');
        }
        push_char(&mut addr, ':');
        push_decimal(&mut addr, self.server.port as u64);
        proof {
            if ipv6 {
                assert(addr@ =~= seq!['['] + self.server.address@ + seq![']'] + seq![':'] + decimal(
                    self.server.port as nat,
                ));
            } else {
                assert(addr@ =~= self.server.address@ + seq![':'] + decimal(self.server.port as nat));
            }
        }
        addr
    }

    /// Whether the application runs in the development environment.
    pub fn is_dev(&self) -> (dev: bool)
        ensures
            dev == (self.env == Environment::Dev),
    {
        self.env == Environment::Dev
    }

    /// Whether the application runs in the production environment.
    pub fn is_prod(&self) -> (prod: bool)
        ensures
            prod == (self.env == Environment::Prod),
    {
        self.env == Environment::Prod
    }
}


impl AppConfig {
    /// The environment that applies where neither the configuration file nor the
    /// environment variables set one: a debug build runs as `Dev`, a release build as
    /// `Prod`.
    pub fn default_env(debug_build: bool) -> (env: Environment)
        ensures
            env == (if debug_build { Environment::Dev } else { Environment::Prod }),
    {
        if debug_build {
            Environment::Dev
        } else {
            Environment::Prod
        }
    }

    /// The defaults that apply where neither the configuration file nor the
    /// environment sets a value, for the environment `env` the application runs in.
    /// In `Dev` it logs from `TRACE` on to standard output; otherwise from `WARN` on
    /// into `/var/log/crabdrive/`.
    pub fn default_values(env: Environment) -> (config: AppConfig)
        ensures
            config.env == env,
            config.server.address@ == "127.0.0.1"@,
            config.server.port == 2722,
            config.db.path@ == ":memory:"@,
            config.db.pool_size == 15,
            config.storage.dir@ == ":memory:"@,
            config.storage.limit == 500_000_000,
            config.log.minimum_level@ == (if env == Environment::Dev { "TRACE"@ } else { "WARN"@ }),
            texts(config.log.targets@) == (if env == Environment::Dev { seq![":stdout:"@] } else { seq![
                "/var/log/crabdrive/"@,
            ] }),
    {
        let dev = match env {
            Environment::Dev => true,
            Environment::Prod => false,
        };
        let minimum_level = if dev {
            String::from_str("TRACE")
        } else {
            String::from_str("WARN")
        };
        let target = if dev {
            String::from_str(":stdout:")
        } else {
            String::from_str("/var/log/crabdrive/")
        };
        let targets = vec![target];
        assert(texts(targets@) =~= seq![target@]);
        AppConfig {
            env,
            server: SeverConfig { address: String::from_str("127.0.0.1"), port: 2722 },
            db: DatabaseConfig { path: String::from_str(":memory:"), pool_size: 15 },
            storage: StorageConfig { dir: String::from_str(":memory:"), limit: 500_000_000 },
            log: LogConfig { minimum_level, targets },
        }
    }
}

/// The levels from which messages are logged.
#[derive(Clone, Copy, Debug, PartialEq, Eq, Structural)]
pub enum LogLevel {
    Error,
    Warn,
    Info,
    Debug,
    Trace,
}

/// The level a configured minimum level names, or `None` for `NONE`: no logging.
pub open spec fn log_level_of(level: Seq<char>) -> Option<LogLevel> {
    if level == "ERROR"@ {
        Some(LogLevel::Error)
    } else if level == "WARN"@ {
        Some(LogLevel::Warn)
    } else if level == "INFO"@ {
        Some(LogLevel::Info)
    } else if level == "DEBUG"@ {
        Some(LogLevel::Debug)
    } else if level == "TRACE"@ {
        Some(LogLevel::Trace)
    } else {
        None
    }
}

/// The level from which to log, for a validated minimum level; `None` turns logging off.
pub fn logging_level(minimum_level: &String) -> (level: Option<LogLevel>)
    requires
        valid_log_level(minimum_level@),
    ensures
        level == log_level_of(minimum_level@),
        level is None <==> minimum_level@ == "NONE"@,
{
    proof {
        reveal_strlit("ERROR");
        reveal_strlit("WARN");
        reveal_strlit("INFO");
        reveal_strlit("DEBUG");
        reveal_strlit("TRACE");
        reveal_strlit("NONE");
        assert("NONE"@[0] != "INFO"@[0]);
        assert("NONE"@[0] != "WARN"@[0]);
        assert("NONE"@ != "ERROR"@);
        assert("NONE"@ != "DEBUG"@);
        assert("NONE"@ != "TRACE"@);
    }
    let level = minimum_level.as_str();
    if same_text(level, "ERROR") {
        Some(LogLevel::Error)
    } else if same_text(level, "WARN") {
        Some(LogLevel::Warn)
    } else if same_text(level, "INFO") {
        Some(LogLevel::Info)
    } else if same_text(level, "DEBUG") {
        Some(LogLevel::Debug)
    } else if same_text(level, "TRACE") {
        Some(LogLevel::Trace)
    } else {
        None
    }
}

/// The extension of the file a path names, as `Path::extension` gives it.
pub uninterp spec fn extension_of(path: Seq<char>) -> Option<Seq<char>>;

/// The extension of the file a path names (`std::path::Path::extension`), as text.
///
/// The contract says only that the result is the one that `extension_of` names for
/// the path: what `Path::extension` does with dots and trailing components is not
/// written out here.
#[verifier::external_body]
fn path_extension(path: &str) -> (extension: Option<String>)
    ensures
        match extension {
            Some(e) => extension_of(path@) == Some(e@),
            None => extension_of(path@) is None,
        },
{
    match std::path::Path::new(path).extension() {
        Some(e) => Some(e.to_string_lossy().into_owned()),
        None => None,
    }
}

/// Where a log target sends the log.
#[derive(Clone, Copy, Debug, PartialEq, Eq, Structural)]
pub enum LogTarget {
    /// `:stdout:`, with colours.
    Stdout,
    /// `:stderr:`, with colours.
    Stderr,
    /// A directory (trailing `/`) that gets one log file per day.
    Directory,
    /// A file with the extension `json`, written as JSON lines.
    JsonFile,
    /// Any other file, written in the compact format.
    File,
}

/// The kind of a configured log target.
pub open spec fn log_target_of(target: Seq<char>) -> LogTarget {
    if target == ":stdout:"@ {
        LogTarget::Stdout
    } else if target == ":stderr:"@ {
        LogTarget::Stderr
    } else if target.len() > 0 && target.last() == '/' {
        LogTarget::Directory
    } else if extension_of(target) == Some("json"@) {
        LogTarget::JsonFile
    } else {
        LogTarget::File
    }
}

/// Tells what kind of log target a configured target is.
pub fn classify_log_target(target: &str) -> (kind: LogTarget)
    ensures
        kind == log_target_of(target@),
{
    if same_text(target, ":stdout:") {
        LogTarget::Stdout
    } else if same_text(target, ":stderr:") {
        LogTarget::Stderr
    } else if ends_with_char(target, '/') {
        LogTarget::Directory
    } else {
        match path_extension(target) {
            Some(extension) => {
                if same_text(extension.as_str(), "json") {
                    LogTarget::JsonFile
                } else {
                    LogTarget::File
                }
            },
            None => LogTarget::File,
        }
    }
}

} // verus!
