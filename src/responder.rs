use vstd::prelude::*;

use crate::config::ServerConfig;
use crate::path::{join_path, joined};

verus! {

/// Maps request paths to files under a fixed root directory.
pub struct FileResponder {
    config: ServerConfig,
}

impl FileResponder {
    /// The settings this responder was built with.
    pub closed spec fn spec_config(&self) -> ServerConfig {
        self.config
    }

    /// The root directory, as characters.
    pub open spec fn root_view(&self) -> Seq<char> {
        self.spec_config().root@
    }

    /// A responder for the given settings.
    pub fn new(config: ServerConfig) -> (r: FileResponder)
        ensures
            r.spec_config() == config,
    {
        FileResponder { config }
    }

    /// The settings this responder was built with.
    pub fn config(&self) -> (c: &ServerConfig)
        ensures
            *c == self.spec_config(),
    {
        &self.config
    }

    /// The filesystem path that a request path names: the request path
    /// appended to the root, taken as it is. A request path that is
    /// absolute, or holds `..` segments, can name a file outside the root.
    pub fn resolve(&self, req_path: &str) -> (r: String)
        ensures
            r@ == joined(self.root_view(), req_path@),
    {
        join_path(self.config.root.as_str(), req_path)
    }
}

} // verus!
