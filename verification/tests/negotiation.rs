use std::collections::BTreeMap;

use socks5_core::auth::{
    auth_failure_reply, auth_success_reply, check_credentials, parse_subnegotiation,
};
use socks5_core::authentication::Authentication;
use socks5_core::config::Config;
use socks5_core::error::Socks5Error;
use socks5_core::handshake::{
    method_reply, negotiate_method, no_acceptable_reply, parse_greeting, select_method,
};

#[test]
fn greeting_of_version_five_yields_method_list() {
    let buffer = vec![0x05, 0x02, 0x01, 0x02];
    assert_eq!(parse_greeting(&buffer), Ok(vec![0x01, 0x02]));
}

#[test]
fn greeting_of_socks4_is_rejected_before_socks5_parsing() {
    let buffer = vec![0x04, 0x01, 0x00];
    assert_eq!(parse_greeting(&buffer), Err(Socks5Error::UnsupportedFeature));
}

#[test]
fn greeting_of_http_connect_is_rejected() {
    let buffer = vec![0x43, 0x4F, 0x4E, 0x4E, 0x45, 0x43, 0x54];
    assert_eq!(parse_greeting(&buffer), Err(Socks5Error::UnsupportedFeature));
}

#[test]
fn greeting_of_unknown_version_is_a_protocol_violation() {
    assert_eq!(parse_greeting(&vec![0x06, 0x01, 0x00]), Err(Socks5Error::ProtocolViolation));
    assert_eq!(parse_greeting(&Vec::new()), Err(Socks5Error::ProtocolViolation));
}

#[test]
fn reverse_scan_selects_the_last_proposal_present_in_the_policy() {
    let mut policy: BTreeMap<u8, u8> = BTreeMap::new();
    policy.insert(100, 0x00);
    policy.insert(0, 0x02);
    let methods = vec![0x01, 0x02];
    assert_eq!(select_method(&methods, &policy), Some(0x02));
}

#[test]
fn reverse_scan_ignores_policy_priority_for_the_lookup() {
    let mut policy: BTreeMap<u8, u8> = BTreeMap::new();
    policy.insert(0, 0x00);
    policy.insert(1, 0x02);
    let methods = vec![0x02, 0x00];
    assert_eq!(select_method(&methods, &policy), Some(0x00));
}

#[test]
fn negotiation_selects_username_password_for_the_default_policy() {
    let policy = Config::get_allowed_authentication_method();
    let buffer = vec![0x05, 0x02, 0x01, 0x02];
    assert_eq!(negotiate_method(&buffer, &policy), Ok(Authentication::UsernamePassword));
}

#[test]
fn negotiation_fails_when_no_proposal_is_allowed() {
    let policy = Config::get_allowed_authentication_method();
    let buffer = vec![0x05, 0x02, 0x01, 0x03];
    assert_eq!(negotiate_method(&buffer, &policy), Err(Socks5Error::AuthNegotiationFailed));
    assert_eq!(no_acceptable_reply(), vec![0x05, 0xFF]);
}

#[test]
fn negotiation_fails_on_an_empty_method_list() {
    let policy = Config::get_allowed_authentication_method();
    let buffer = vec![0x05, 0x00];
    assert_eq!(negotiate_method(&buffer, &policy), Err(Socks5Error::AuthNegotiationFailed));
}

#[test]
fn method_reply_echoes_version_and_method() {
    assert_eq!(method_reply(0x00), vec![0x05, 0x00]);
    assert_eq!(method_reply(0x02), vec![0x05, 0x02]);
}

#[test]
fn subnegotiation_parses_username_and_password() {
    let mut buffer = vec![0x01, 0x08];
    buffer.extend_from_slice(b"username");
    buffer.push(0x08);
    buffer.extend_from_slice(b"password");
    let (user, pass) = parse_subnegotiation(&buffer).unwrap();
    assert_eq!(user, b"username".to_vec());
    assert_eq!(pass, b"password".to_vec());
}

#[test]
fn subnegotiation_of_wrong_version_fails_authentication() {
    let buffer = vec![0x02, 0x01, 0x61, 0x01, 0x62];
    assert_eq!(parse_subnegotiation(&buffer), Err(Socks5Error::AuthenticationFailed));
    assert_eq!(parse_subnegotiation(&Vec::new()), Err(Socks5Error::AuthenticationFailed));
}

#[test]
fn subnegotiation_with_overrunning_lengths_is_a_protocol_violation() {
    // ULEN claims eight bytes but only three follow.
    let buffer = vec![0x01, 0x08, 0x61, 0x62, 0x63];
    assert_eq!(parse_subnegotiation(&buffer), Err(Socks5Error::ProtocolViolation));
    // PLEN claims four bytes but only one follows.
    let buffer = vec![0x01, 0x01, 0x61, 0x04, 0x62];
    assert_eq!(parse_subnegotiation(&buffer), Err(Socks5Error::ProtocolViolation));
}

#[test]
fn the_configured_pair_is_accepted_with_the_success_reply() {
    let user = b"username".to_vec();
    let pass = b"password".to_vec();
    assert!(check_credentials(&user, &pass));
    assert_eq!(auth_success_reply(), vec![0x01, 0x00]);
}

#[test]
fn any_other_pair_is_rejected_with_the_failure_reply() {
    assert!(!check_credentials(&b"username".to_vec(), &b"wrong".to_vec()));
    assert!(!check_credentials(&b"user".to_vec(), &b"password".to_vec()));
    assert!(!check_credentials(&Vec::new(), &Vec::new()));
    assert!(!check_credentials(&b"usernameX".to_vec(), &b"password".to_vec()));
    assert_eq!(auth_failure_reply(), vec![0x01, 0x01]);
}

#[test]
fn client_preference_is_last_proposed_first() {
    let policy = Config::get_allowed_authentication_method();
    // Both proposals are allowed; the later one wins.
    let methods = vec![0x00, 0x02];
    assert_eq!(select_method(&methods, &policy), Some(0x02));
    let methods = vec![0x02, 0x00];
    assert_eq!(select_method(&methods, &policy), Some(0x00));
}

#[test]
fn duplicate_proposals_are_permitted() {
    let policy = Config::get_allowed_authentication_method();
    let methods = vec![0x02, 0x02, 0x01];
    assert_eq!(select_method(&methods, &policy), Some(0x02));
}

#[test]
fn an_empty_policy_allows_nothing() {
    let policy: BTreeMap<u8, u8> = BTreeMap::new();
    assert_eq!(select_method(&vec![0x00, 0x02], &policy), None);
}

#[test]
fn negotiation_rejects_a_socks4_greeting() {
    let policy = Config::get_allowed_authentication_method();
    let buffer = vec![0x04, 0x01, 0x00];
    assert_eq!(negotiate_method(&buffer, &policy), Err(Socks5Error::UnsupportedFeature));
}
