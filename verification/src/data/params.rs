use vstd::prelude::*;

verus! {

/// The command-line settings of the server, as given: each may be absent.
#[derive(Debug, Clone)]
pub struct Params {
    /// The port to listen on, in decimal.
    pub port: Option<String>,
    /// The size of each connection's input buffer, in decimal.
    pub input_buffer_size: Option<String>,
}

} // verus!
