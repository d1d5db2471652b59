//! The shared port cell: the port the backend listens on, absent until the
//! sidecar has announced it.

use vstd::prelude::*;

verus! {

/// Holds the port the backend listens on, once it is known. The view is
/// what the cell holds.
#[derive(Debug)]
pub struct BackendState {
    port: Option<u16>,
}

impl View for BackendState {
    type V = Option<u16>;

    closed spec fn view(&self) -> Option<u16> {
        self.port
    }
}

/// What a query is answered with while the cell is empty.
pub open spec fn not_ready_message() -> Seq<char> {
    "Backend not ready"@
}

/// The answer to a query for the port, given what the cell holds.
pub open spec fn query_outcome(port: Option<u16>) -> Result<u16, Seq<char>> {
    match port {
        Some(p) => Ok(p),
        None => Err(not_ready_message()),
    }
}

impl BackendState {
    /// An empty cell: no port has been published yet.
    pub fn new() -> (state: BackendState)
        ensures
            state@ == None::<u16>,
    {
        BackendState { port: None }
    }

    /// Stores `port`, replacing whatever the cell held. Only the watcher
    /// writes: outside this crate the cell can be read and nothing else.
    pub(crate) fn write(&mut self, port: u16)
        ensures
            final(self)@ == Some(port),
    {
        self.port = Some(port);
    }

    /// What the cell holds at the moment.
    pub fn read(&self) -> (port: Option<u16>)
        ensures
            port == self@,
    {
        self.port
    }

    /// The port, once it has been published; until then the error
    /// `Backend not ready`, which a caller may take as "ask again later".
    pub fn get_backend_port(&self) -> (result: Result<u16, String>)
        ensures
            match result {
                Ok(port) => query_outcome(self@) == Ok::<u16, Seq<char>>(port),
                Err(message) => query_outcome(self@) == Err::<u16, Seq<char>>(message@),
            },
    {
        match self.port {
            Some(port) => Ok(port),
            None => Err("Backend not ready".to_owned()),
        }
    }
}

impl Default for BackendState {
    /// An empty cell.
    fn default() -> (state: BackendState)
        ensures
            state@ == None::<u16>,
    {
        BackendState::new()
    }
}

} // verus!
