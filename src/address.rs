use vstd::prelude::*;

verus! {

/// An IP address of either family, held as its numeric value
/// (big-endian octets read as one unsigned integer).
#[derive(Clone, Copy, Debug, PartialEq, Eq, Structural)]
pub enum IpAddress {
    V4(u32),
    V6(u128),
}

impl IpAddress {
    pub fn is_v6(&self) -> (r: bool)
        ensures
            r == (*self is V6),
    {
        match self {
            IpAddress::V4(_) => false,
            IpAddress::V6(_) => true,
        }
    }
}

/// The DNS record type that holds an address of this family.
pub open spec fn record_type_of(a: IpAddress) -> Seq<char> {
    if a is V6 {
        "AAAA"@
    } else {
        "A"@
    }
}

/// The record type for `a`: `A` for IPv4, `AAAA` for IPv6.
pub fn record_type_for(a: &IpAddress) -> (r: String)
    ensures
        r@ == record_type_of(*a),
{
    if a.is_v6() {
        String::from_str("AAAA")
    } else {
        String::from_str("A")
    }
}

} // verus!
