use vstd::prelude::*;

verus! {

/// Where the user directory lives and how to authenticate against it.
#[derive(Debug, Clone)]
pub struct GoRest {
    /// Base URL of the upstream service.
    pub url: String,
    /// Bearer token sent with every upstream request.
    pub token: String,
}

/// Settings of the whole service, read once at startup.
#[derive(Debug, Clone)]
pub struct Configuration {
    pub go_rest: GoRest,
}

} // verus!
