//! The RFC 1929 username/password subnegotiation: parsing of the client's
//! message, the credential check, and the two status replies.

use vstd::prelude::*;
use crate::error::Socks5Error;

verus! {

/// The username length byte of a subnegotiation buffer.
pub open spec fn subneg_ulen(buffer: Seq<u8>) -> int
    recommends
        buffer.len() >= 2,
{
    buffer[1] as int
}

/// The password length byte of a subnegotiation buffer.
pub open spec fn subneg_plen(buffer: Seq<u8>) -> int
    recommends
        buffer.len() >= 3 + subneg_ulen(buffer),
{
    buffer[2 + subneg_ulen(buffer)] as int
}

/// A well-framed subnegotiation message: version byte 0x01, then the
/// username length byte, the username, the password length byte, and the
/// password, each length validated against the bytes that remain.
pub open spec fn subneg_well_formed(buffer: Seq<u8>) -> bool {
    &&& buffer.len() >= 2
    &&& buffer[0] == 0x01
    &&& buffer.len() >= 3 + subneg_ulen(buffer)
    &&& buffer.len() >= 3 + subneg_ulen(buffer) + subneg_plen(buffer)
}

/// The username bytes of a well-formed subnegotiation message.
pub open spec fn subneg_username(buffer: Seq<u8>) -> Seq<u8>
    recommends
        subneg_well_formed(buffer),
{
    buffer.subrange(2, 2 + subneg_ulen(buffer))
}

/// The password bytes of a well-formed subnegotiation message.
pub open spec fn subneg_password(buffer: Seq<u8>) -> Seq<u8>
    recommends
        subneg_well_formed(buffer),
{
    buffer.subrange(3 + subneg_ulen(buffer), 3 + subneg_ulen(buffer) + subneg_plen(buffer))
}

/// Parses a subnegotiation message into username and password bytes. A
/// wrong version byte fails the authentication (the caller then owes the
/// client the `(0x01, 0x01)` reply); a message whose declared lengths
/// overrun the buffer is malformed framing and is dropped without a reply.
/// No byte beyond the buffer is ever read.
pub fn parse_subnegotiation(buffer: &Vec<u8>) -> (r: Result<(Vec<u8>, Vec<u8>), Socks5Error>)
    ensures
        buffer@.len() == 0 || buffer@[0] != 0x01 ==> r == Err::<(Vec<u8>, Vec<u8>), _>(
            Socks5Error::AuthenticationFailed,
        ),
        buffer@.len() > 0 && buffer@[0] == 0x01 && !subneg_well_formed(buffer@) ==> r == Err::<
            (Vec<u8>, Vec<u8>),
            _,
        >(Socks5Error::ProtocolViolation),
        subneg_well_formed(buffer@) ==> (r matches Ok(up) && up.0@ == subneg_username(buffer@)
            && up.1@ == subneg_password(buffer@)),
{
    if buffer.len() == 0 || buffer[0] != 0x01 {
        return Err(Socks5Error::AuthenticationFailed);
    }
    if buffer.len() < 2 {
        return Err(Socks5Error::ProtocolViolation);
    }
    let ulen = buffer[1] as usize;
    if buffer.len() < 3 + ulen {
        return Err(Socks5Error::ProtocolViolation);
    }
    let plen = buffer[2 + ulen] as usize;
    if buffer.len() < 3 + ulen + plen {
        return Err(Socks5Error::ProtocolViolation);
    }
    let mut username: Vec<u8> = Vec::new();
    let mut i: usize = 2;
    while i < 2 + ulen
        invariant
            ulen <= 255,
            2 <= i <= 2 + ulen,
            buffer@.len() >= 3 + ulen + plen,
            username@ == buffer@.subrange(2, i as int),
        decreases 2 + ulen - i,
    {
        username.push(buffer[i]);
        i = i + 1;
    }
    let mut password: Vec<u8> = Vec::new();
    let mut j: usize = 3 + ulen;
    while j < 3 + ulen + plen
        invariant
            ulen <= 255,
            plen <= 255,
            3 + ulen <= j <= 3 + ulen + plen,
            buffer@.len() >= 3 + ulen + plen,
            password@ == buffer@.subrange(3 + ulen as int, j as int),
        decreases 3 + ulen + plen - j,
    {
        password.push(buffer[j]);
        j = j + 1;
    }
    proof {
        assert(username@ =~= subneg_username(buffer@));
        assert(password@ =~= subneg_password(buffer@));
    }
    Ok((username, password))
}

/// The username the credential store accepts, as bytes.
pub open spec fn expected_username() -> Seq<u8> {
    seq![0x75u8, 0x73u8, 0x65u8, 0x72u8, 0x6Eu8, 0x61u8, 0x6Du8, 0x65u8]
}

/// The password the credential store accepts, as bytes.
pub open spec fn expected_password() -> Seq<u8> {
    seq![0x70u8, 0x61u8, 0x73u8, 0x73u8, 0x77u8, 0x6Fu8, 0x72u8, 0x64u8]
}

/// Byte-for-byte equality of two buffers.
fn bytes_equal(a: &Vec<u8>, b: &Vec<u8>) -> (r: bool)
    ensures
        r == (a@ == b@),
{
    if a.len() != b.len() {
        return false;
    }
    let mut i: usize = 0;
    while i < a.len()
        invariant
            i <= a@.len(),
            a@.len() == b@.len(),
            forall|j: int| 0 <= j < i ==> a@[j] == b@[j],
        decreases a@.len() - i,
    {
        if a[i] != b[i] {
            return false;
        }
        i = i + 1;
    }
    proof {
        assert(a@ =~= b@);
    }
    true
}

/// Accepts exactly the one configured username/password pair; every other
/// pair is rejected.
pub fn check_credentials(username: &Vec<u8>, password: &Vec<u8>) -> (r: bool)
    ensures
        r == (username@ == expected_username() && password@ == expected_password()),
{
    let expected_user: Vec<u8> = vec![0x75, 0x73, 0x65, 0x72, 0x6E, 0x61, 0x6D, 0x65];
    let expected_pass: Vec<u8> = vec![0x70, 0x61, 0x73, 0x73, 0x77, 0x6F, 0x72, 0x64];
    proof {
        assert(expected_user@ =~= expected_username());
        assert(expected_pass@ =~= expected_password());
    }
    let user_ok = bytes_equal(username, &expected_user);
    let pass_ok = bytes_equal(password, &expected_pass);
    user_ok && pass_ok
}

/// The subnegotiation success reply: version 0x01, status 0x00.
pub fn auth_success_reply() -> (r: Vec<u8>)
    ensures
        r@ == seq![0x01u8, 0x00u8],
{
    let mut r: Vec<u8> = Vec::new();
    r.push(0x01);
    r.push(0x00);
    proof {
        assert(r@ =~= seq![0x01u8, 0x00u8]);
    }
    r
}

/// The subnegotiation failure reply: version 0x01, status 0x01, sent for a
/// bad subnegotiation version byte and for bad credentials alike.
pub fn auth_failure_reply() -> (r: Vec<u8>)
    ensures
        r@ == seq![0x01u8, 0x01u8],
{
    let mut r: Vec<u8> = Vec::new();
    r.push(0x01);
    r.push(0x01);
    proof {
        assert(r@ =~= seq![0x01u8, 0x01u8]);
    }
    r
}

} // verus!
