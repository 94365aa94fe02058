//! Options of a managed OpenCode server process.

use vstd::prelude::*;
use crate::text::to_owned_string;

verus! {

/// How a managed `opencode serve` process is started.
#[derive(Debug, Clone)]
pub struct ServerOptions {
    /// Hostname the server binds to.
    pub hostname: String,
    /// Port the server binds to; a free port when `None`.
    pub port: Option<u16>,
    /// How long to wait for the server to come up, in milliseconds.
    pub startup_timeout_ms: u64,
    /// Working directory of the server process.
    pub directory: Option<String>,
    /// Server configuration passed as `OPENCODE_CONFIG_CONTENT`.
    pub config_json: Option<String>,
    /// The `opencode` binary to run.
    pub binary: String,
}

impl ServerOptions {
    /// Default options: `127.0.0.1`, a free port, a 5 second startup
    /// timeout, the current directory, no configuration, the `opencode`
    /// binary from `PATH`.
    pub fn new() -> (r: Self)
        ensures
            r.hostname@ == "127.0.0.1"@,
            r.port is None,
            r.startup_timeout_ms == 5000,
            r.directory is None,
            r.config_json is None,
            r.binary@ == "opencode"@,
    {
        ServerOptions {
            hostname: to_owned_string("127.0.0.1"),
            port: None,
            startup_timeout_ms: 5000,
            directory: None,
            config_json: None,
            binary: to_owned_string("opencode"),
        }
    }

    /// Sets the hostname.
    pub fn hostname(self, hostname: &str) -> (r: Self)
        ensures
            r == (ServerOptions { hostname: r.hostname, ..self }),
            r.hostname@ == hostname@,
    {
        ServerOptions { hostname: to_owned_string(hostname), ..self }
    }

    /// Sets the port.
    pub fn port(self, port: u16) -> (r: Self)
        ensures
            r == (ServerOptions { port: Some(port), ..self }),
    {
        ServerOptions { port: Some(port), ..self }
    }

    /// Sets the startup timeout in milliseconds.
    pub fn startup_timeout_ms(self, timeout_ms: u64) -> (r: Self)
        ensures
            r == (ServerOptions { startup_timeout_ms: timeout_ms, ..self }),
    {
        ServerOptions { startup_timeout_ms: timeout_ms, ..self }
    }

    /// Sets the working directory.
    pub fn directory(self, directory: &str) -> (r: Self)
        ensures
            r == (ServerOptions { directory: r.directory, ..self }),
            r.directory matches Some(d) && d@ == directory@,
    {
        ServerOptions { directory: Some(to_owned_string(directory)), ..self }
    }

    /// Sets the configuration JSON.
    pub fn config_json(self, config_json: &str) -> (r: Self)
        ensures
            r == (ServerOptions { config_json: r.config_json, ..self }),
            r.config_json matches Some(c) && c@ == config_json@,
    {
        ServerOptions { config_json: Some(to_owned_string(config_json)), ..self }
    }

    /// Sets the binary path.
    pub fn binary(self, binary: &str) -> (r: Self)
        ensures
            r == (ServerOptions { binary: r.binary, ..self }),
            r.binary@ == binary@,
    {
        ServerOptions { binary: to_owned_string(binary), ..self }
    }
}

} // verus!
