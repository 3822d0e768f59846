//! The port on which the backend listens, as the user interface sees it.

use vstd::prelude::*;

verus! {

/// The port on which a development build expects the backend.
pub const DEV_PORT: u16 = 8000;

/// The port of the backend, held for the queries of the user interface.
///
/// The value is set when it is made and only read afterwards: the type has
/// no operation that changes it, so every query is answered alike for as
/// long as the process lives.
#[derive(Debug)]
pub struct BackendPort {
    port: u16,
}

impl View for BackendPort {
    type V = u16;

    closed spec fn view(&self) -> u16 {
        self.port
    }
}

impl BackendPort {
    /// Records `port` as the port of the backend.
    pub fn new(port: u16) -> (state: BackendPort)
        ensures
            state@ == port,
    {
        BackendPort { port }
    }
}

/// The query of the user interface: the port on which to reach the backend.
/// It takes nothing but the recorded state and cannot fail.
pub fn get_backend_port(state: &BackendPort) -> (port: u16)
    ensures
        port == state@,
{
    state.port
}

} // verus!
