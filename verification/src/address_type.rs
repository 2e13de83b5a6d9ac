//! The SOCKS5 address-type field of a client request. IPv4 literals and
//! domain names are served; IPv6 is recognised so it can be rejected by
//! name.

use vstd::prelude::*;

verus! {

/// The address-type byte of a SOCKS5 request: IPv4 (0x01), domain name
/// (0x03), IPv6 (0x04), or any other value.
#[derive(Clone, Copy, Debug, PartialEq, Eq, Structural)]
pub enum AddressType {
    IPv4,
    DomainName,
    IPv6,
    Unassigned,
}

impl AddressType {
    /// Classifies an address-type byte; every byte other than 0x01, 0x03
    /// and 0x04 is `Unassigned`.
    pub open spec fn spec_from_u8(value: u8) -> AddressType {
        match value {
            0x01 => AddressType::IPv4,
            0x03 => AddressType::DomainName,
            0x04 => AddressType::IPv6,
            _ => AddressType::Unassigned,
        }
    }

    pub fn from_u8(value: u8) -> (r: AddressType)
        ensures
            r == AddressType::spec_from_u8(value),
    {
        match value {
            0x01 => AddressType::IPv4,
            0x03 => AddressType::DomainName,
            0x04 => AddressType::IPv6,
            _ => AddressType::Unassigned,
        }
    }
}

} // verus!
