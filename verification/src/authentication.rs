//! The SOCKS5 authentication method identifiers carried in a client
//! greeting, including the unassigned and private ranges, which stay
//! distinguishable rather than collapsing into a catch-all.

use vstd::prelude::*;

verus! {

/// An authentication method identifier from a client greeting or a policy
/// entry. `Unassigned` covers 0x04 and 0x0A through 0x7F; `PrivateMethods`
/// covers 0x80 through 0xFE.
#[derive(Clone, Copy, Debug, PartialEq, Eq, Structural)]
pub enum Authentication {
    NoAuthentication,
    GssApi,
    UsernamePassword,
    ChallengeHandshakeAuthenticationProtocol,
    Unassigned,
    ChallengeResonseAuthenticationMethod,
    SecureSocketsLayer,
    NdsAuthentication,
    MultiAuthenticationFramework,
    JsonParameterBlock,
    PrivateMethods,
    NoAcceptableMethods,
}

impl Authentication {
    /// The canonical identifier byte of each variant. The ranged variants
    /// answer with the lowest byte of their range: 0x04 for `Unassigned`
    /// and 0x0A for `PrivateMethods`.
    pub open spec fn spec_as_u8(self) -> u8 {
        match self {
            Authentication::NoAuthentication => 0x00,
            Authentication::GssApi => 0x01,
            Authentication::UsernamePassword => 0x02,
            Authentication::ChallengeHandshakeAuthenticationProtocol => 0x03,
            Authentication::Unassigned => 0x04,
            Authentication::ChallengeResonseAuthenticationMethod => 0x05,
            Authentication::SecureSocketsLayer => 0x06,
            Authentication::NdsAuthentication => 0x07,
            Authentication::MultiAuthenticationFramework => 0x08,
            Authentication::JsonParameterBlock => 0x09,
            Authentication::PrivateMethods => 0x0A,
            Authentication::NoAcceptableMethods => 0xFF,
        }
    }

    /// Classifies a method byte: the assigned identifiers map to their
    /// variants, 0x04 and 0x0A..=0x7F to `Unassigned`, 0x80..=0xFE to
    /// `PrivateMethods`, and 0xFF to `NoAcceptableMethods`.
    pub open spec fn spec_from_u8(value: u8) -> Authentication {
        if value == 0x00 {
            Authentication::NoAuthentication
        } else if value == 0x01 {
            Authentication::GssApi
        } else if value == 0x02 {
            Authentication::UsernamePassword
        } else if value == 0x03 {
            Authentication::ChallengeHandshakeAuthenticationProtocol
        } else if value == 0x05 {
            Authentication::ChallengeResonseAuthenticationMethod
        } else if value == 0x06 {
            Authentication::SecureSocketsLayer
        } else if value == 0x07 {
            Authentication::NdsAuthentication
        } else if value == 0x08 {
            Authentication::MultiAuthenticationFramework
        } else if value == 0x09 {
            Authentication::JsonParameterBlock
        } else if value == 0xFF {
            Authentication::NoAcceptableMethods
        } else if 0x80 <= value {
            Authentication::PrivateMethods
        } else {
            Authentication::Unassigned
        }
    }

    pub fn from_u8(value: u8) -> (r: Authentication)
        ensures
            r == Authentication::spec_from_u8(value),
    {
        if value == 0x00 {
            Authentication::NoAuthentication
        } else if value == 0x01 {
            Authentication::GssApi
        } else if value == 0x02 {
            Authentication::UsernamePassword
        } else if value == 0x03 {
            Authentication::ChallengeHandshakeAuthenticationProtocol
        } else if value == 0x05 {
            Authentication::ChallengeResonseAuthenticationMethod
        } else if value == 0x06 {
            Authentication::SecureSocketsLayer
        } else if value == 0x07 {
            Authentication::NdsAuthentication
        } else if value == 0x08 {
            Authentication::MultiAuthenticationFramework
        } else if value == 0x09 {
            Authentication::JsonParameterBlock
        } else if value == 0xFF {
            Authentication::NoAcceptableMethods
        } else if 0x80 <= value {
            Authentication::PrivateMethods
        } else {
            Authentication::Unassigned
        }
    }

    pub fn as_u8(&self) -> (r: u8)
        ensures
            r == self.spec_as_u8(),
    {
        match self {
            Authentication::NoAuthentication => 0x00,
            Authentication::GssApi => 0x01,
            Authentication::UsernamePassword => 0x02,
            Authentication::ChallengeHandshakeAuthenticationProtocol => 0x03,
            Authentication::Unassigned => 0x04,
            Authentication::ChallengeResonseAuthenticationMethod => 0x05,
            Authentication::SecureSocketsLayer => 0x06,
            Authentication::NdsAuthentication => 0x07,
            Authentication::MultiAuthenticationFramework => 0x08,
            Authentication::JsonParameterBlock => 0x09,
            Authentication::PrivateMethods => 0x0A,
            Authentication::NoAcceptableMethods => 0xFF,
        }
    }
}

} // verus!
