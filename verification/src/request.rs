//! Parsing of the post-authentication CONNECT request: command and
//! address-type dispatch, IPv4 and domain-name destinations, and the
//! success reply sent once the upstream dial has succeeded.
//!
//! Every variable-length field is validated against the bytes that remain
//! before it is sliced: an out-of-range declared length is a parse failure,
//! never an out-of-bounds read.

use vstd::prelude::*;
use vstd::utf8::{decode_utf8, valid_utf8};
use crate::address_type::AddressType;
use crate::command::Command;
use crate::error::Socks5Error;
use crate::text::{ipv4_host_bytes, ipv4_host_string, string_from_utf8};

verus! {

/// The big-endian port of an IPv4 request (bytes 8 and 9).
pub open spec fn ipv4_port(request: Seq<u8>) -> int
    recommends
        request.len() >= 10,
{
    256 * (request[8] as int) + (request[9] as int)
}

/// The declared domain length of a domain-name request (byte 4).
pub open spec fn domain_len(request: Seq<u8>) -> int
    recommends
        request.len() >= 5,
{
    request[4] as int
}

/// A domain-name request whose declared length leaves room for the domain
/// itself and the two port bytes inside the buffer.
pub open spec fn domain_request_well_formed(request: Seq<u8>) -> bool {
    &&& request.len() >= 5
    &&& request.len() >= 7 + domain_len(request)
}

/// The domain bytes of a well-formed domain-name request.
pub open spec fn domain_bytes(request: Seq<u8>) -> Seq<u8>
    recommends
        domain_request_well_formed(request),
{
    request.subrange(5, 5 + domain_len(request))
}

/// The big-endian port that follows the domain of a well-formed
/// domain-name request.
pub open spec fn domain_port(request: Seq<u8>) -> int
    recommends
        domain_request_well_formed(request),
{
    256 * (request[5 + domain_len(request)] as int) + (request[6 + domain_len(request)] as int)
}

/// Extracts host and port from an IPv4 CONNECT request, which must be
/// exactly ten bytes: header, four address octets, two port bytes. The host
/// is rendered in dotted-decimal form.
pub fn fetch_host_and_port_ipv4(request: &Vec<u8>) -> (r: Result<(String, u16), Socks5Error>)
    ensures
        request@.len() != 10 ==> r == Err::<(String, u16), _>(Socks5Error::RequestParseError),
        request@.len() == 10 ==> (r matches Ok(hp) && hp.0@ == decode_utf8(
            ipv4_host_bytes(request@[4], request@[5], request@[6], request@[7]),
        ) && hp.1 as int == ipv4_port(request@)),
{
    if request.len() != 10 {
        return Err(Socks5Error::RequestParseError);
    }
    let host = ipv4_host_string(request[4], request[5], request[6], request[7]);
    let port: u16 = (request[8] as u16) * 256 + (request[9] as u16);
    Ok((host, port))
}

/// Extracts host and port from a domain-name CONNECT request. The declared
/// length is checked against the remaining buffer before the domain is
/// sliced, and the domain must decode as text; either failure is a parse
/// error. No byte beyond the buffer is ever read.
pub fn fetch_host_and_port_domain(request: &Vec<u8>) -> (r: Result<(String, u16), Socks5Error>)
    ensures
        !domain_request_well_formed(request@) ==> r == Err::<(String, u16), _>(
            Socks5Error::RequestParseError,
        ),
        domain_request_well_formed(request@) && !valid_utf8(domain_bytes(request@)) ==> r == Err::<
            (String, u16),
            _,
        >(Socks5Error::RequestParseError),
        domain_request_well_formed(request@) && valid_utf8(domain_bytes(request@)) ==> (r matches
            Ok(hp) && hp.0@ == decode_utf8(domain_bytes(request@)) && hp.1 as int == domain_port(
            request@,
        )),
{
    if request.len() < 5 {
        return Err(Socks5Error::RequestParseError);
    }
    let l = request[4] as usize;
    if request.len() < 7 + l {
        return Err(Socks5Error::RequestParseError);
    }
    let mut domain: Vec<u8> = Vec::new();
    let mut i: usize = 5;
    while i < 5 + l
        invariant
            l <= 255,
            5 <= i <= 5 + l,
            request@.len() >= 7 + l,
            domain@ == request@.subrange(5, i as int),
        decreases 5 + l - i,
    {
        domain.push(request[i]);
        i = i + 1;
    }
    proof {
        assert(domain@ =~= domain_bytes(request@));
    }
    let port: u16 = (request[5 + l] as u16) * 256 + (request[6 + l] as u16);
    match string_from_utf8(domain) {
        Some(host) => Ok((host, port)),
        None => Err(Socks5Error::RequestParseError),
    }
}

/// Parses a CONNECT request into destination host and port.
///
/// The request must be at least four bytes and open with the SOCKS5
/// version byte; only the CONNECT command is served, and of the address
/// types only IPv4 literals and domain names. IPv6 is recognised but
/// unsupported; an unassigned address type is a parse error. No reply is
/// owed at this stage: success is announced only after the upstream dial
/// succeeds.
pub fn parse_request(request: &Vec<u8>) -> (r: Result<(String, u16), Socks5Error>)
    ensures
        request@.len() < 4 ==> r == Err::<(String, u16), _>(Socks5Error::RequestParseError),
        request@.len() >= 4 && request@[0] != 0x05 ==> r == Err::<(String, u16), _>(
            Socks5Error::ProtocolViolation,
        ),
        request@.len() >= 4 && request@[0] == 0x05 && request@[1] != 0x01 ==> r == Err::<
            (String, u16),
            _,
        >(Socks5Error::UnsupportedFeature),
        request@.len() >= 4 && request@[0] == 0x05 && request@[1] == 0x01 ==> match request@[3] {
            0x01 => {
                &&& request@.len() != 10 ==> r == Err::<(String, u16), _>(
                    Socks5Error::RequestParseError,
                )
                &&& request@.len() == 10 ==> (r matches Ok(hp) && hp.0@ == decode_utf8(
                    ipv4_host_bytes(request@[4], request@[5], request@[6], request@[7]),
                ) && hp.1 as int == ipv4_port(request@))
            },
            0x03 => {
                &&& !domain_request_well_formed(request@) ==> r == Err::<(String, u16), _>(
                    Socks5Error::RequestParseError,
                )
                &&& domain_request_well_formed(request@) && !valid_utf8(domain_bytes(request@))
                    ==> r == Err::<(String, u16), _>(Socks5Error::RequestParseError)
                &&& domain_request_well_formed(request@) && valid_utf8(domain_bytes(request@))
                    ==> (r matches Ok(hp) && hp.0@ == decode_utf8(domain_bytes(request@)) && hp.1
                    as int == domain_port(request@))
            },
            0x04 => r == Err::<(String, u16), _>(Socks5Error::UnsupportedFeature),
            _ => r == Err::<(String, u16), _>(Socks5Error::RequestParseError),
        },
{
    if request.len() < 4 {
        return Err(Socks5Error::RequestParseError);
    }
    if request[0] != 0x05 {
        return Err(Socks5Error::ProtocolViolation);
    }
    match Command::from_u8(request[1]) {
        Command::CONNECT => {},
        _ => {
            return Err(Socks5Error::UnsupportedFeature);
        },
    }
    match AddressType::from_u8(request[3]) {
        AddressType::IPv4 => fetch_host_and_port_ipv4(request),
        AddressType::DomainName => fetch_host_and_port_domain(request),
        AddressType::IPv6 => Err(Socks5Error::UnsupportedFeature),
        AddressType::Unassigned => Err(Socks5Error::RequestParseError),
    }
}

/// The reply written to the client after a successful upstream dial: a
/// success code with the fixed bound address `0.0.0.0:0`.
pub fn connect_success_reply() -> (r: Vec<u8>)
    ensures
        r@ == seq![0x05u8, 0x00u8, 0x00u8, 0x01u8, 0u8, 0u8, 0u8, 0u8, 0u8, 0u8],
{
    let mut r: Vec<u8> = Vec::new();
    r.push(0x05);
    r.push(0x00);
    r.push(0x00);
    r.push(0x01);
    r.push(0);
    r.push(0);
    r.push(0);
    r.push(0);
    r.push(0);
    r.push(0);
    proof {
        assert(r@ =~= seq![0x05u8, 0x00u8, 0x00u8, 0x01u8, 0u8, 0u8, 0u8, 0u8, 0u8, 0u8]);
    }
    r
}

} // verus!
