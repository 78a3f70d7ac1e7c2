use vstd::prelude::*;

verus! {

/// The directory that files are served from unless configured otherwise.
pub const DEFAULT_ROOT: &'static str = "/mnt/oss";

/// The address the server listens on unless configured otherwise: every
/// interface.
pub const DEFAULT_HOST: &'static str = "0.0.0.0";

/// The port the server listens on unless configured otherwise.
pub const DEFAULT_PORT: u16 = 9000;

/// Process-wide settings, fixed at startup.
pub struct ServerConfig {
    /// The directory that request paths are resolved against.
    pub root: String,
    /// The address to listen on.
    pub host: String,
    /// The port to listen on.
    pub port: u16,
}

impl ServerConfig {
    /// Settings with the given root directory, address and port.
    pub fn new(root: String, host: String, port: u16) -> (c: ServerConfig)
        ensures
            c.root@ == root@,
            c.host@ == host@,
            c.port == port,
    {
        ServerConfig { root, host, port }
    }
}

impl Default for ServerConfig {
    /// Serves `/mnt/oss` on port 9000 of every interface.
    fn default() -> (c: ServerConfig)
        ensures
            c.root@ == DEFAULT_ROOT@,
            c.host@ == DEFAULT_HOST@,
            c.port == DEFAULT_PORT,
    {
        ServerConfig {
            root: String::from_str(DEFAULT_ROOT),
            host: String::from_str(DEFAULT_HOST),
            port: DEFAULT_PORT,
        }
    }
}

} // verus!
