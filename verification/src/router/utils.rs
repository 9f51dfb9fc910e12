use crate::dns::message::{be16, u16_from_be};
use vstd::prelude::*;

verus! {

/// Address family of IPv4 in a socket address.
pub const AF_INET: u16 = 2;

/// Address family of IPv6 in a socket address.
pub const AF_INET6: u16 = 10;

/// Why no original destination was recovered.
#[derive(Clone, Copy, Debug, PartialEq, Eq, Structural)]
pub enum DestError {
    /// The socket address is of another family than was asked for.
    UnrecognizedFamily,
}

/// The original destination that an IPv4 socket address names: its address
/// and its port, both read in network order. `addr` and `port` are the
/// octets of the two fields as they lie in memory.
pub fn get_original_dest(family: u16, addr: [u8; 4], port: [u8; 2]) -> (r: Result<
    ([u8; 4], u16),
    DestError,
>)
    ensures
        family == AF_INET ==> r == Ok::<([u8; 4], u16), DestError>(
            (addr, be16(port@[0], port@[1])),
        ),
        family != AF_INET ==> r == Err::<([u8; 4], u16), DestError>(
            DestError::UnrecognizedFamily,
        ),
{
    if family != AF_INET {
        return Err(DestError::UnrecognizedFamily);
    }
    Ok((addr, u16_from_be(port[0], port[1])))
}

/// The original destination that an IPv6 socket address names, read like
/// that of an IPv4 socket address.
pub fn get_original6_dest(family: u16, addr: [u8; 16], port: [u8; 2]) -> (r: Result<
    ([u8; 16], u16),
    DestError,
>)
    ensures
        family == AF_INET6 ==> r == Ok::<([u8; 16], u16), DestError>(
            (addr, be16(port@[0], port@[1])),
        ),
        family != AF_INET6 ==> r == Err::<([u8; 16], u16), DestError>(
            DestError::UnrecognizedFamily,
        ),
{
    if family != AF_INET6 {
        return Err(DestError::UnrecognizedFamily);
    }
    Ok((addr, u16_from_be(port[0], port[1])))
}

} // verus!
