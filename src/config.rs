use vstd::prelude::*;

verus! {

/// Settings fixed when the server starts: the TCP port it listens on.
pub struct ServeOptions {
    pub port: u16,
}

} // verus!
