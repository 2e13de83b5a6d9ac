//! Parsing of the client greeting and selection of the authentication
//! method by intersecting the client's proposals with the allowed-methods
//! policy.
//!
//! The selection scans the client's list in reverse (last proposal first)
//! and takes the first proposal that appears anywhere among the policy's
//! values. That reverse-scan tie-break is observable protocol behaviour and
//! is pinned down here, not left to the implementation.

use vstd::prelude::*;
use std::collections::BTreeMap;
use crate::authentication::Authentication;
use crate::config::policy_allows;
use crate::error::Socks5Error;

verus! {

/// The candidate method list of a greeting buffer: everything after the
/// version byte and the count byte.
pub open spec fn greeting_methods(buffer: Seq<u8>) -> Seq<u8> {
    if buffer.len() <= 2 {
        Seq::empty()
    } else {
        buffer.skip(2)
    }
}

/// The method the reverse scan selects: the last element of `methods` that
/// appears among the policy's values, or `None` when no element does.
pub open spec fn selected_method(methods: Seq<u8>, policy: Map<u8, u8>) -> Option<u8>
    decreases methods.len(),
{
    if methods.len() == 0 {
        None
    } else if policy_allows(policy, methods.last()) {
        Some(methods.last())
    } else {
        selected_method(methods.drop_last(), policy)
    }
}

/// The selection is sound and honours the reverse-scan preference: a
/// selected method was proposed by the client, is allowed by the policy,
/// and no later proposal is allowed; nothing is selected exactly when no
/// proposal is allowed.
pub proof fn lemma_selected_method_characterised(methods: Seq<u8>, policy: Map<u8, u8>)
    ensures
        selected_method(methods, policy) matches Some(m) ==> exists|i: int|
            0 <= i < methods.len() && methods[i] == m && policy_allows(policy, m) && (forall|j: int|
                i < j < methods.len() ==> !policy_allows(policy, #[trigger] methods[j])),
        selected_method(methods, policy) is None <==> (forall|i: int|
            0 <= i < methods.len() ==> !policy_allows(policy, #[trigger] methods[i])),
    decreases methods.len(),
{
    if methods.len() == 0 {
    } else if policy_allows(policy, methods.last()) {
        let i = methods.len() - 1;
        assert(methods[i] == methods.last());
        assert(forall|j: int| i < j < methods.len() ==> !policy_allows(policy, #[trigger] methods[j]));
    } else {
        let rest = methods.drop_last();
        lemma_selected_method_characterised(rest, policy);
        match selected_method(rest, policy) {
            Some(m) => {
                let i = choose|i: int|
                    0 <= i < rest.len() && rest[i] == m && policy_allows(policy, m) && (forall|
                        j: int,
                    |
                        i < j < rest.len() ==> !policy_allows(policy, #[trigger] rest[j]));
                assert(methods[i] == m);
                assert(forall|j: int|
                    i < j < methods.len() ==> !policy_allows(policy, #[trigger] methods[j])) by {
                    assert(forall|j: int| i < j < rest.len() ==> rest[j] == #[trigger] methods[j]);
                }
            },
            None => {
                assert(forall|i: int| 0 <= i < rest.len() ==> #[trigger] methods[i] == rest[i]);
            },
        }
    }
}

/// True when some entry of the policy maps to the method byte `m`. The
/// priority keys are bytes, so walking the whole key space is an
/// exhaustive check of the policy's values.
fn policy_contains(policy: &BTreeMap<u8, u8>, m: u8) -> (r: bool)
    ensures
        r == policy_allows(policy@, m),
{
    let mut k: usize = 0;
    let mut found = false;
    while k < 256
        invariant
            k <= 256,
            found <==> exists|j: u8|
                (j as int) < k && #[trigger] policy@.contains_key(j) && policy@[j] == m,
        decreases 256 - k,
    {
        match policy.get(&(k as u8)) {
            Some(v) => {
                if *v == m {
                    found = true;
                }
            },
            None => {},
        }
        k = k + 1;
    }
    found
}

/// Scans the client's proposed methods last-proposed-first and returns the
/// first proposal that appears anywhere among the policy's values.
pub fn select_method(methods: &Vec<u8>, policy: &BTreeMap<u8, u8>) -> (r: Option<u8>)
    ensures
        r == selected_method(methods@, policy@),
{
    let mut i: usize = methods.len();
    proof {
        assert(methods@.take(i as int) =~= methods@);
    }
    while i > 0
        invariant
            i <= methods@.len(),
            selected_method(methods@, policy@) == selected_method(
                methods@.take(i as int),
                policy@,
            ),
        decreases i,
    {
        let m = methods[i - 1];
        if policy_contains(policy, m) {
            proof {
                let taken = methods@.take(i as int);
                assert(taken.last() == m);
            }
            return Some(m);
        }
        proof {
            let taken = methods@.take(i as int);
            assert(taken.last() == m);
            assert(taken.drop_last() =~= methods@.take(i - 1));
        }
        i = i - 1;
    }
    proof {
        assert(methods@.take(0) =~= Seq::<u8>::empty());
    }
    None
}

/// Splits a greeting buffer into its candidate method list. A buffer whose
/// first byte is 0x05 yields the bytes after the version and count bytes; a
/// SOCKS4 greeting or an HTTP CONNECT preamble is a recognised but
/// unsupported protocol; an empty buffer or any other version byte is a
/// protocol violation.
pub fn parse_greeting(buffer: &Vec<u8>) -> (r: Result<Vec<u8>, Socks5Error>)
    ensures
        buffer@.len() > 0 && buffer@[0] == 0x05 ==> (r matches Ok(methods) && methods@
            == greeting_methods(buffer@)),
        buffer@.len() > 0 && (buffer@[0] == 0x04 || buffer@[0] == 0x43) ==> r == Err::<
            Vec<u8>,
            _,
        >(Socks5Error::UnsupportedFeature),
        buffer@.len() == 0 || (buffer@[0] != 0x05 && buffer@[0] != 0x04 && buffer@[0] != 0x43)
            ==> r == Err::<Vec<u8>, _>(Socks5Error::ProtocolViolation),
{
    if buffer.len() == 0 {
        return Err(Socks5Error::ProtocolViolation);
    }
    let version = buffer[0];
    if version == 0x05 {
        let mut methods: Vec<u8> = Vec::new();
        if buffer.len() <= 2 {
            return Ok(methods);
        }
        let mut i: usize = 2;
        while i < buffer.len()
            invariant
                2 <= i <= buffer@.len(),
                methods@ == buffer@.subrange(2, i as int),
            decreases buffer@.len() - i,
        {
            methods.push(buffer[i]);
            i = i + 1;
        }
        proof {
            assert(methods@ =~= greeting_methods(buffer@));
        }
        Ok(methods)
    } else if version == 0x04 || version == 0x43 {
        Err(Socks5Error::UnsupportedFeature)
    } else {
        Err(Socks5Error::ProtocolViolation)
    }
}

/// Negotiates the authentication method for one connection: parses the
/// greeting and applies the reverse scan to the policy. When no proposal is
/// allowed the negotiation fails; the caller then owes the client the
/// `(0x05, 0xFF)` reply before closing.
pub fn negotiate_method(buffer: &Vec<u8>, policy: &BTreeMap<u8, u8>) -> (r: Result<
    Authentication,
    Socks5Error,
>)
    ensures
        buffer@.len() > 0 && buffer@[0] == 0x05 ==> r == match selected_method(
            greeting_methods(buffer@),
            policy@,
        ) {
            Some(m) => Ok::<_, Socks5Error>(Authentication::spec_from_u8(m)),
            None => Err(Socks5Error::AuthNegotiationFailed),
        },
        buffer@.len() > 0 && (buffer@[0] == 0x04 || buffer@[0] == 0x43) ==> r == Err::<
            Authentication,
            _,
        >(Socks5Error::UnsupportedFeature),
        buffer@.len() == 0 || (buffer@[0] != 0x05 && buffer@[0] != 0x04 && buffer@[0] != 0x43)
            ==> r == Err::<Authentication, _>(Socks5Error::ProtocolViolation),
{
    let methods = match parse_greeting(buffer) {
        Ok(methods) => methods,
        Err(e) => {
            return Err(e);
        },
    };
    match select_method(&methods, policy) {
        Some(m) => Ok(Authentication::from_u8(m)),
        None => Err(Socks5Error::AuthNegotiationFailed),
    }
}

/// The method-select reply: the SOCKS5 version byte followed by the chosen
/// method byte.
pub fn method_reply(method: u8) -> (r: Vec<u8>)
    ensures
        r@ == seq![0x05u8, method],
{
    let mut r: Vec<u8> = Vec::new();
    r.push(0x05);
    r.push(method);
    proof {
        assert(r@ =~= seq![0x05u8, method]);
    }
    r
}

/// The reply sent when no proposed method is acceptable: the SOCKS5 version
/// byte followed by 0xFF.
pub fn no_acceptable_reply() -> (r: Vec<u8>)
    ensures
        r@ == seq![0x05u8, 0xFFu8],
{
    method_reply(0xFF)
}

} // verus!
