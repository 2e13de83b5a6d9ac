//! The SOCKS5 command field of a client request. Only CONNECT is served;
//! the other commands are recognised so they can be rejected by name.

use vstd::prelude::*;

verus! {

/// The command byte of a SOCKS5 request: CONNECT (0x01), BIND (0x02),
/// UDP ASSOCIATE (0x03), or any other value.
#[derive(Clone, Copy, Debug, PartialEq, Eq, Structural)]
pub enum Command {
    CONNECT,
    BIND,
    UDPAssociate,
    Unassigned,
}

impl Command {
    /// Classifies a command byte; every byte outside 0x01..=0x03 is
    /// `Unassigned`.
    pub open spec fn spec_from_u8(value: u8) -> Command {
        match value {
            0x01 => Command::CONNECT,
            0x02 => Command::BIND,
            0x03 => Command::UDPAssociate,
            _ => Command::Unassigned,
        }
    }

    pub fn from_u8(value: u8) -> (r: Command)
        ensures
            r == Command::spec_from_u8(value),
    {
        match value {
            0x01 => Command::CONNECT,
            0x02 => Command::BIND,
            0x03 => Command::UDPAssociate,
            _ => Command::Unassigned,
        }
    }
}

} // verus!
