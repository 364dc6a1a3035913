//! The daemon's ports: each taken from its environment variable where that is a port
//! number, else the default.

use vstd::prelude::*;
use crate::text::{parse_u16, parse_u16_spec};

verus! {

/// The gRPC port when `FS_GRPC_PORT` gives none.
pub const DEFAULT_GRPC_PORT: u16 = 50094;

/// The REST port when `FS_REST_PORT` gives none.
pub const DEFAULT_REST_PORT: u16 = 8094;

/// The port that a variable's value gives: the value where it reads as a port number,
/// else `default` (also where the variable is not set).
pub open spec fn port_spec(value: Option<Seq<char>>, default: u16) -> u16 {
    match value {
        Some(v) => match parse_u16_spec(v) {
            Some(p) => p,
            None => default,
        },
        None => default,
    }
}

/// The port that an environment variable's value (if set) gives.
pub fn port_or_default(value: Option<&str>, default: u16) -> (p: u16)
    ensures
        p == port_spec(crate::db::audit::opt_str_view(value), default),
{
    match value {
        Some(v) => match parse_u16(v) {
            Some(p) => p,
            None => default,
        },
        None => default,
    }
}

} // verus!
