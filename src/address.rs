use vstd::prelude::*;
use crate::errors::ErrorKind;

verus! {

/// An address of either family: an IPv4 address as its 32-bit value, an IPv6
/// address as its 128-bit value.
#[derive(Clone, Copy, Debug, PartialEq, Eq, Structural)]
pub enum IpAddress {
    V4(u32),
    V6(u128),
}

/// The family that an address record serves: `A` records hold IPv4, `AAAA` IPv6.
#[derive(Clone, Copy, Debug, PartialEq, Eq, Structural)]
pub enum Family {
    V4,
    V6,
}

/// What address discovery found for this host; either family may be missing.
#[derive(Clone, Copy, Debug, PartialEq, Eq)]
pub struct ResolvedAddresses {
    pub ipv4: Option<u32>,
    pub ipv6: Option<u128>,
}

/// The address of family `f` that records should hold, if that family was resolved.
pub open spec fn desired_of(f: Family, a: ResolvedAddresses) -> Option<IpAddress> {
    match f {
        Family::V4 => match a.ipv4 {
            Some(x) => Some(IpAddress::V4(x)),
            None => None,
        },
        Family::V6 => match a.ipv6 {
            Some(x) => Some(IpAddress::V6(x)),
            None => None,
        },
    }
}

/// The address that the text `s` spells as an IP literal, if it spells one.
pub uninterp spec fn address_literal_of(s: Seq<char>) -> Option<IpAddress>;

/// Relies on the standard `FromStr` of `core::net::IpAddr`: whether the text is
/// an IPv4 or IPv6 literal, and which address it denotes.
#[verifier::external_body]
pub(crate) fn parse_address(s: &str) -> (r: Option<IpAddress>)
    ensures
        r == address_literal_of(s@),
{
    match s.parse::<core::net::IpAddr>() {
        Ok(core::net::IpAddr::V4(a)) => Some(IpAddress::V4(u32::from(a))),
        Ok(core::net::IpAddr::V6(a)) => Some(IpAddress::V6(u128::from(a))),
        Err(_) => None,
    }
}

impl ResolvedAddresses {
    /// The address of family `f` that records should hold, if that family was resolved.
    pub fn desired(&self, f: Family) -> (r: Option<IpAddress>)
        ensures
            r == desired_of(f, *self),
    {
        match f {
            Family::V4 => match self.ipv4 {
                Some(x) => Some(IpAddress::V4(x)),
                None => None,
            },
            Family::V6 => match self.ipv6 {
                Some(x) => Some(IpAddress::V6(x)),
                None => None,
            },
        }
    }

    /// Whether at least one family was resolved; with neither, nothing can be updated.
    pub fn any(&self) -> (r: bool)
        ensures
            r == (self.ipv4.is_some() || self.ipv6.is_some()),
    {
        self.ipv4.is_some() || self.ipv6.is_some()
    }
}

/// The warnings to raise for the families that were not resolved, IPv4's first.
pub fn address_warnings(a: &ResolvedAddresses) -> (r: Vec<ErrorKind>)
    ensures
        r@ == (if a.ipv4 is None {
            seq![ErrorKind::IPv4]
        } else {
            Seq::empty()
        }) + (if a.ipv6 is None {
            seq![ErrorKind::IPv6]
        } else {
            Seq::empty()
        }),
{
    let mut r: Vec<ErrorKind> = Vec::new();
    if a.ipv4.is_none() {
        r.push(ErrorKind::IPv4);
    }
    if a.ipv6.is_none() {
        r.push(ErrorKind::IPv6);
    }
    assert(r@ =~= (if a.ipv4 is None {
        seq![ErrorKind::IPv4]
    } else {
        Seq::empty()
    }) + (if a.ipv6 is None {
        seq![ErrorKind::IPv6]
    } else {
        Seq::empty()
    }));
    r
}

} // verus!
