//! Configuration of the service: where the main database is, where the web
//! server listens, which language model backend answers, and where the
//! subjects' data is kept.

use vstd::prelude::*;
use crate::text::copy_str;

verus! {

/// The main database.
#[derive(Debug)]
pub struct DatabaseConfig {
    pub connection_string: String,
    pub pool_size: usize,
}

/// The address the web server binds to.
#[derive(Debug)]
pub struct WebConfig {
    pub host: String,
    pub port: u16,
}

/// The language model backend: `"local"`, `"remote"` or `"ollama"`, the
/// model's name, and for the backends that need them a key and a URL.
#[derive(Debug)]
pub struct LlmConfig {
    pub backend: String,
    pub model: String,
    pub api_key: Option<String>,
    pub api_url: Option<String>,
}

/// The whole configuration.
#[derive(Debug)]
pub struct AppConfig {
    pub database: DatabaseConfig,
    pub web: WebConfig,
    pub llm: LlmConfig,
    pub data_dir: String,
}

/// What the command line may say: the configuration file to read, and the
/// host, port and data directory that replace the file's.
#[derive(Debug)]
pub struct CliArgs {
    pub config: Option<String>,
    pub host: Option<String>,
    pub port: Option<u16>,
    pub data_dir: Option<String>,
}

/// The text that `given` holds, or `fallback` where it holds none.
pub open spec fn text_or(given: Option<String>, fallback: Seq<char>) -> Seq<char> {
    match given {
        Some(s) => s@,
        None => fallback,
    }
}

/// The places where a configuration file is looked for, in order: the file
/// named on the command line and no other, or else the three usual places.
pub open spec fn config_locations_spec(args: CliArgs) -> Seq<Seq<char>> {
    match args.config {
        Some(path) => seq![path@],
        None => seq!["config.toml"@, "config/config.toml"@, "/etc/nl-cube/config.toml"@],
    }
}

impl CliArgs {
    /// The places where a configuration file is looked for, in order; the
    /// first that exists is read.
    pub fn config_locations(&self) -> (r: Vec<String>)
        ensures
            r@.len() == config_locations_spec(*self).len(),
            forall|i: int| 0 <= i < r@.len() ==> r@[i]@ == config_locations_spec(*self)[i],
    {
        let mut r: Vec<String> = Vec::new();
        match &self.config {
            Some(path) => {
                r.push(copy_str(path.as_str()));
            },
            None => {
                r.push(copy_str("config.toml"));
                r.push(copy_str("config/config.toml"));
                r.push(copy_str("/etc/nl-cube/config.toml"));
            },
        }
        r
    }
}

impl AppConfig {
    /// The configuration in force: what was loaded from the configuration
    /// file, with the host, the port and the data directory replaced by those
    /// given on the command line.
    pub fn new(args: &CliArgs, loaded: AppConfig) -> (r: AppConfig)
        ensures
            r.database == loaded.database,
            r.llm == loaded.llm,
            r.web.host@ == text_or(args.host, loaded.web.host@),
            r.web.port == (match args.port {
                Some(p) => p,
                None => loaded.web.port,
            }),
            r.data_dir@ == text_or(args.data_dir, loaded.data_dir@),
    {
        let host = match &args.host {
            Some(h) => copy_str(h.as_str()),
            None => loaded.web.host,
        };
        let port = match args.port {
            Some(p) => p,
            None => loaded.web.port,
        };
        let data_dir = match &args.data_dir {
            Some(d) => copy_str(d.as_str()),
            None => loaded.data_dir,
        };
        AppConfig { database: loaded.database, web: WebConfig { host, port }, llm: loaded.llm, data_dir }
    }
}

impl Default for AppConfig {
    /// The configuration used where no file says otherwise.
    fn default() -> (r: AppConfig)
        ensures
            r.database.connection_string@ == "nl-cube.db"@,
            r.database.pool_size == 5,
            r.web.host@ == "127.0.0.1"@,
            r.web.port == 3000,
            r.llm.backend@ == "local"@,
            r.llm.model@ == "sqlcoder"@,
            r.llm.api_key is None,
            r.llm.api_url is None,
            r.data_dir@ == "data"@,
    {
        AppConfig {
            database: DatabaseConfig { connection_string: copy_str("nl-cube.db"), pool_size: 5 },
            web: WebConfig { host: copy_str("127.0.0.1"), port: 3000 },
            llm: LlmConfig {
                backend: copy_str("local"),
                model: copy_str("sqlcoder"),
                api_key: None,
                api_url: None,
            },
            data_dir: copy_str("data"),
        }
    }
}

} // verus!
