//! The protocol version identifier read from the first byte of a client's
//! opening message, used to tell SOCKS5 apart from protocols this proxy
//! recognises but does not implement.

use vstd::prelude::*;

verus! {

/// The protocol announced by the first byte of a connection's opening
/// message: SOCKS5 (0x05), SOCKS4 (0x04), an HTTP CONNECT preamble
/// (0x43, the letter `C`), or anything else.
#[derive(Clone, Copy, Debug, PartialEq, Eq, Structural)]
pub enum General {
    Socks5,
    Socks4,
    HttpConnect,
    Unknown,
}

impl General {
    /// The version byte each recognised protocol opens with; `Unknown`
    /// stands for every other byte and maps to 0x00.
    pub open spec fn spec_as_u8(self) -> u8 {
        match self {
            General::Socks5 => 0x05,
            General::Socks4 => 0x04,
            General::HttpConnect => 0x43,
            General::Unknown => 0x00,
        }
    }

    /// Classifies a leading byte: 0x05, 0x04 and 0x43 name their protocols,
    /// everything else is `Unknown`.
    pub open spec fn spec_from_u8(value: u8) -> General {
        match value {
            0x04 => General::Socks4,
            0x05 => General::Socks5,
            0x43 => General::HttpConnect,
            _ => General::Unknown,
        }
    }

    pub fn from_u8(value: u8) -> (r: General)
        ensures
            r == General::spec_from_u8(value),
    {
        match value {
            0x04 => General::Socks4,
            0x05 => General::Socks5,
            0x43 => General::HttpConnect,
            _ => General::Unknown,
        }
    }

    pub fn as_u8(&self) -> (r: u8)
        ensures
            r == self.spec_as_u8(),
    {
        match self {
            General::Socks5 => 0x05,
            General::Socks4 => 0x04,
            General::HttpConnect => 0x43,
            General::Unknown => 0x00,
        }
    }
}

} // verus!
