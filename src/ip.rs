use vstd::prelude::*;

verus! {

/// An IP address held as plain integers: the four octets of a version 4
/// address packed big-endian into a `u32`, or the sixteen octets of a
/// version 6 address packed big-endian into a `u128`.
#[derive(Clone, Copy, Debug, PartialEq, Eq, Structural)]
pub enum IpAddress {
    V4(u32),
    V6(u128),
}

/// The big-endian packing of four octets.
pub open spec fn packed_v4(a: u8, b: u8, c: u8, d: u8) -> int {
    a as int * 0x1000000 + b as int * 0x10000 + c as int * 0x100 + d as int
}

impl IpAddress {
    /// The version 4 address `a.b.c.d`.
    pub fn v4(a: u8, b: u8, c: u8, d: u8) -> (r: IpAddress)
        ensures
            r == IpAddress::V4(packed_v4(a, b, c, d) as u32),
    {
        let n: u32 = (a as u32) * 0x1000000 + (b as u32) * 0x10000 + (c as u32) * 0x100 + (d as u32);
        IpAddress::V4(n)
    }
}

} // verus!
