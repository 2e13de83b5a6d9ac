use socks5_core::address_type::AddressType;
use socks5_core::authentication::Authentication;
use socks5_core::command::Command;
use socks5_core::config::Config;
use socks5_core::general::General;

#[test]
fn general_classifies_version_bytes() {
    assert_eq!(General::from_u8(0x05), General::Socks5);
    assert_eq!(General::from_u8(0x04), General::Socks4);
    assert_eq!(General::from_u8(0x43), General::HttpConnect);
    assert_eq!(General::from_u8(0x00), General::Unknown);
    assert_eq!(General::from_u8(0x06), General::Unknown);
}

#[test]
fn general_round_trips_known_versions() {
    assert_eq!(General::Socks5.as_u8(), 0x05);
    assert_eq!(General::Socks4.as_u8(), 0x04);
    assert_eq!(General::HttpConnect.as_u8(), 0x43);
    assert_eq!(General::Unknown.as_u8(), 0x00);
}

#[test]
fn command_classifies_bytes() {
    assert_eq!(Command::from_u8(0x01), Command::CONNECT);
    assert_eq!(Command::from_u8(0x02), Command::BIND);
    assert_eq!(Command::from_u8(0x03), Command::UDPAssociate);
    assert_eq!(Command::from_u8(0x00), Command::Unassigned);
    assert_eq!(Command::from_u8(0x7F), Command::Unassigned);
}

#[test]
fn address_type_classifies_bytes() {
    assert_eq!(AddressType::from_u8(0x01), AddressType::IPv4);
    assert_eq!(AddressType::from_u8(0x03), AddressType::DomainName);
    assert_eq!(AddressType::from_u8(0x04), AddressType::IPv6);
    assert_eq!(AddressType::from_u8(0x00), AddressType::Unassigned);
    assert_eq!(AddressType::from_u8(0x02), AddressType::Unassigned);
}

#[test]
fn authentication_classifies_assigned_bytes() {
    assert_eq!(Authentication::from_u8(0x00), Authentication::NoAuthentication);
    assert_eq!(Authentication::from_u8(0x01), Authentication::GssApi);
    assert_eq!(Authentication::from_u8(0x02), Authentication::UsernamePassword);
    assert_eq!(
        Authentication::from_u8(0x03),
        Authentication::ChallengeHandshakeAuthenticationProtocol
    );
    assert_eq!(
        Authentication::from_u8(0x05),
        Authentication::ChallengeResonseAuthenticationMethod
    );
    assert_eq!(Authentication::from_u8(0x06), Authentication::SecureSocketsLayer);
    assert_eq!(Authentication::from_u8(0x07), Authentication::NdsAuthentication);
    assert_eq!(
        Authentication::from_u8(0x08),
        Authentication::MultiAuthenticationFramework
    );
    assert_eq!(Authentication::from_u8(0x09), Authentication::JsonParameterBlock);
    assert_eq!(Authentication::from_u8(0xFF), Authentication::NoAcceptableMethods);
}

#[test]
fn authentication_classifies_ranged_bytes() {
    assert_eq!(Authentication::from_u8(0x04), Authentication::Unassigned);
    assert_eq!(Authentication::from_u8(0x0A), Authentication::Unassigned);
    assert_eq!(Authentication::from_u8(0x7F), Authentication::Unassigned);
    assert_eq!(Authentication::from_u8(0x80), Authentication::PrivateMethods);
    assert_eq!(Authentication::from_u8(0xFE), Authentication::PrivateMethods);
}

#[test]
fn authentication_as_u8_answers_canonical_bytes() {
    assert_eq!(Authentication::NoAuthentication.as_u8(), 0x00);
    assert_eq!(Authentication::UsernamePassword.as_u8(), 0x02);
    assert_eq!(Authentication::Unassigned.as_u8(), 0x04);
    assert_eq!(Authentication::PrivateMethods.as_u8(), 0x0A);
    assert_eq!(Authentication::NoAcceptableMethods.as_u8(), 0xFF);
}

#[test]
fn policy_holds_the_two_configured_methods() {
    let policy = Config::get_allowed_authentication_method();
    assert_eq!(policy.len(), 2);
    assert_eq!(policy.get(&0), Some(&0x02));
    assert_eq!(policy.get(&100), Some(&0x00));
}
