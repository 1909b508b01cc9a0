//! The remote address of a peer, held as plain integers.

use vstd::prelude::*;

verus! {

/// A socket address captured when a connection is accepted.
///
/// An IPv4 address is its four octets as one big-endian `u32`; an IPv6
/// address is its sixteen octets as one big-endian `u128`, together with the
/// flow information and the scope id that belong to such a socket address.
#[derive(Clone, Copy, Debug, PartialEq, Eq, Structural, Hash)]
#[allow(inconsistent_fields)]
pub enum Address {
    V4 { ip: u32, port: u16 },
    V6 { ip: u128, port: u16, flowinfo: u32, scope_id: u32 },
}

} // verus!
