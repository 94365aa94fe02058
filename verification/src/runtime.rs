//! Settings of a managed runtime (server process plus connected client) and
//! the readiness check of a freshly started server.

use vstd::prelude::*;
use crate::duration::Duration;
use crate::server::ServerOptions;
use crate::text::{spec_trim_end_char, spec_trim_start, to_owned_string, trim_end_char, trim_start};
use vstd::string::{StrSliceExecFns, StringExecFns};

verus! {

/// Builder for a managed runtime.
#[derive(Debug, Clone)]
pub struct ManagedRuntimeBuilder {
    /// Options of the server process.
    pub server_options: ServerOptions,
    /// Directory sent as `x-opencode-directory`; the current directory when
    /// `None`.
    pub request_directory: Option<String>,
}

impl Default for ManagedRuntimeBuilder {
    fn default() -> (r: Self)
        ensures
            r.server_options.hostname@ == "127.0.0.1"@,
            r.server_options.startup_timeout_ms == 10_000,
            r.server_options.port is None,
            r.server_options.directory is None,
            r.server_options.config_json is None,
            r.server_options.binary@ == "opencode"@,
            r.request_directory is None,
    {
        ManagedRuntimeBuilder {
            server_options: ServerOptions::new().hostname("127.0.0.1").startup_timeout_ms(10_000),
            request_directory: None,
        }
    }
}

impl ManagedRuntimeBuilder {
    /// Creates a builder: `127.0.0.1`, a free port, a 10 second startup
    /// timeout, the current directory.
    pub fn new() -> (r: Self)
        ensures
            r.server_options.hostname@ == "127.0.0.1"@,
            r.server_options.startup_timeout_ms == 10_000,
            r.server_options.port is None,
            r.server_options.directory is None,
            r.server_options.config_json is None,
            r.server_options.binary@ == "opencode"@,
            r.request_directory is None,
    {
        Self::default()
    }

    /// Sets the server hostname.
    pub fn hostname(self, hostname: &str) -> (r: Self)
        ensures
            r.server_options == (ServerOptions { hostname: r.server_options.hostname, ..self.server_options }),
            r.server_options.hostname@ == hostname@,
            r.request_directory == self.request_directory,
    {
        ManagedRuntimeBuilder { server_options: self.server_options.hostname(hostname), ..self }
    }

    /// Sets the server port.
    pub fn port(self, port: u16) -> (r: Self)
        ensures
            r.server_options == (ServerOptions { port: Some(port), ..self.server_options }),
            r.request_directory == self.request_directory,
    {
        ManagedRuntimeBuilder { server_options: self.server_options.port(port), ..self }
    }

    /// Sets the server startup timeout in milliseconds.
    pub fn startup_timeout_ms(self, timeout_ms: u64) -> (r: Self)
        ensures
            r.server_options == (ServerOptions { startup_timeout_ms: timeout_ms, ..self.server_options }),
            r.request_directory == self.request_directory,
    {
        ManagedRuntimeBuilder {
            server_options: self.server_options.startup_timeout_ms(timeout_ms),
            ..self
        }
    }

    /// Sets the server startup timeout; whole milliseconds, `u64::MAX` when
    /// they do not fit.
    pub fn startup_timeout(self, timeout: Duration) -> (r: Self)
        ensures
            r.server_options == (ServerOptions {
                startup_timeout_ms: timeout.spec_millis_saturating(),
                ..self.server_options
            }),
            r.request_directory == self.request_directory,
    {
        let timeout_ms = timeout.as_millis_saturating();
        ManagedRuntimeBuilder {
            server_options: self.server_options.startup_timeout_ms(timeout_ms),
            ..self
        }
    }

    /// Sets the working directory of the server process and the request
    /// directory to `directory`.
    pub fn directory(self, directory: &str) -> (r: Self)
        ensures
            r.server_options == (ServerOptions { directory: r.server_options.directory, ..self.server_options }),
            r.server_options.directory matches Some(d) && d@ == directory@,
            r.request_directory matches Some(d) && d@ == directory@,
    {
        ManagedRuntimeBuilder {
            server_options: self.server_options.directory(directory),
            request_directory: Some(to_owned_string(directory)),
        }
    }

    /// Overrides the request directory sent as `x-opencode-directory`.
    pub fn request_directory(self, directory: &str) -> (r: Self)
        ensures
            r.server_options == self.server_options,
            r.request_directory matches Some(d) && d@ == directory@,
    {
        ManagedRuntimeBuilder { request_directory: Some(to_owned_string(directory)), ..self }
    }

    /// Sets the server configuration JSON.
    pub fn config_json(self, config_json: &str) -> (r: Self)
        ensures
            r.server_options == (ServerOptions { config_json: r.server_options.config_json, ..self.server_options }),
            r.server_options.config_json matches Some(c) && c@ == config_json@,
            r.request_directory == self.request_directory,
    {
        ManagedRuntimeBuilder { server_options: self.server_options.config_json(config_json), ..self }
    }

    /// Sets the `opencode` binary path.
    pub fn binary(self, binary: &str) -> (r: Self)
        ensures
            r.server_options == (ServerOptions { binary: r.server_options.binary, ..self.server_options }),
            r.server_options.binary@ == binary@,
            r.request_directory == self.request_directory,
    {
        ManagedRuntimeBuilder { server_options: self.server_options.binary(binary), ..self }
    }

    /// The server options and request directory to start with, given the
    /// current directory `cwd` when it could be read. A configured request
    /// directory is used as is; otherwise the current directory becomes the
    /// request directory and, where none was set, the server directory.
    /// `None` when no request directory is configured and `cwd` is `None`.
    pub fn resolve_launch(self, cwd: Option<String>) -> (r: Option<(ServerOptions, String)>)
        ensures
            self.request_directory matches Some(d) ==> r == Some((self.server_options, d)),
            self.request_directory is None ==> match cwd {
                None => r is None,
                Some(c) => r matches Some((opts, dir)) && dir == c && (if self.server_options.directory is None {
                    opts == (ServerOptions { directory: opts.directory, ..self.server_options })
                        && (opts.directory matches Some(od) && od@ == c@)
                } else {
                    opts == self.server_options
                }),
            },
    {
        match self.request_directory {
            Some(d) => Some((self.server_options, d)),
            None => match cwd {
                None => None,
                Some(c) => {
                    let opts = if self.server_options.directory.is_none() {
                        self.server_options.directory(c.as_str())
                    } else {
                        self.server_options
                    };
                    Some((opts, c))
                },
            },
        }
    }
}

/// Interval between two readiness probes, in milliseconds.
pub const READINESS_POLL_MS: u64 = 250;

/// How many readiness probes fit in `timeout_ms`; at least one.
pub fn readiness_attempts(timeout_ms: u64) -> (n: u64)
    ensures
        n == if timeout_ms / 250 >= 1 { timeout_ms / 250 } else { 1 },
        n >= 1,
{
    let n = timeout_ms / READINESS_POLL_MS;
    if n >= 1 {
        n
    } else {
        1
    }
}

/// The session list endpoint under `base_url`.
pub fn session_endpoint(base_url: &str) -> (r: String)
    ensures
        r@ == spec_trim_end_char(base_url@, '/') + "/session"@,
{
    to_owned_string(trim_end_char(base_url, '/')).concat("/session")
}

/// Whether a response body shows that the session API answers with JSON:
/// after leading whitespace it is non-empty and opens an array or object.
pub open spec fn spec_is_session_api_ready(body: Seq<char>) -> bool {
    let t = spec_trim_start(body);
    t.len() > 0 && (t[0] == '[' || t[0] == '{')
}

/// Whether a response body shows that the session API answers with JSON.
pub fn is_session_api_ready(body: &str) -> (r: bool)
    ensures
        r == spec_is_session_api_ready(body@),
{
    let trimmed = trim_start(body);
    if trimmed.unicode_len() == 0 {
        return false;
    }
    let c = trimmed.get_char(0);
    c == '[' || c == '{'
}

} // verus!
