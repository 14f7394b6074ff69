use vstd::prelude::*;
use vstd::string::StringExecFns;

verus! {

/// Paths the client works with: where its key pair lives and where received
/// files are written.
#[derive(Debug, Clone)]
pub struct PathConfig {
    pub keys_path: String,
    pub download_path: String,
}

/// The relay endpoint: HTTP base URL for negotiation, host and port for the
/// proxied socket.
#[derive(Debug, Clone)]
pub struct ServerConfig {
    pub http_url: String,
    pub socket_port: u16,
    pub socket_host: String,
}

/// The client's persisted configuration.
#[derive(Debug, Clone)]
pub struct Config {
    pub path: PathConfig,
    pub server: ServerConfig,
}

/// The relay HTTP base URL used when none is configured.
pub fn default_http_url() -> (r: &'static str)
    ensures
        r@ == "http://localhost:8080"@,
{
    "http://localhost:8080"
}

/// The relay socket host used when none is configured.
pub fn default_socket_host() -> (r: &'static str)
    ensures
        r@ == "localhost"@,
{
    "localhost"
}

/// The relay socket port used when none is configured.
pub const DEFAULT_SOCKET_PORT: u16 = 10000;

impl Config {
    /// A configuration with the given paths and the default relay endpoint.
    pub fn create_config(keys_path: String, download_path: String) -> (r: Config)
        ensures
            r.path.keys_path@ == keys_path@,
            r.path.download_path@ == download_path@,
            r.server.http_url@ == "http://localhost:8080"@,
            r.server.socket_port == DEFAULT_SOCKET_PORT,
            r.server.socket_host@ == "localhost"@,
    {
        Config {
            path: PathConfig { keys_path, download_path },
            server: ServerConfig {
                http_url: String::from_str(default_http_url()),
                socket_port: DEFAULT_SOCKET_PORT,
                socket_host: String::from_str(default_socket_host()),
            },
        }
    }
}

} // verus!
