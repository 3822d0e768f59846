//! The command line of the bundled backend.

use crate::decimal::{decimal, decimal_string};
use vstd::prelude::*;
use vstd::string::*;

verus! {

/// The name under which the backend executable is bundled.
pub const SIDECAR_PROGRAM: &'static str = "binaries/ai-reader-backend";

/// The flag in front of the port on the backend's command line.
pub const PORT_FLAG: &'static str = "--port";

/// The arguments that tell the backend to listen on `port`: the flag, then
/// the port in decimal notation.
pub open spec fn sidecar_args_spec(port: u16) -> Seq<Seq<char>> {
    seq![PORT_FLAG@, decimal(port as nat)]
}

/// The arguments with which the backend is started on `port`.
pub fn sidecar_args(port: u16) -> (args: Vec<String>)
    ensures
        args@.len() == 2,
        args@[0]@ == PORT_FLAG@,
        args@[1]@ == decimal(port as nat),
        args.deep_view() == sidecar_args_spec(port),
{
    let mut args: Vec<String> = Vec::new();
    args.push(String::from_str(PORT_FLAG));
    args.push(decimal_string(port));
    assert(args.deep_view() =~= sidecar_args_spec(port));
    args
}

} // verus!
