//! The allowed-methods policy: an ordered mapping from priority key to
//! authentication method, immutable after startup and read by every
//! connection pipeline.

use vstd::prelude::*;
use std::collections::BTreeMap;
use crate::authentication::Authentication;

verus! {

/// Static configuration of the proxy core.
pub struct Config {}

/// True when some priority key of `policy` maps to the method byte `m`;
/// membership in the policy's value set is all that method selection
/// consults.
pub open spec fn policy_allows(policy: Map<u8, u8>, m: u8) -> bool {
    exists|k: u8| #[trigger] policy.contains_key(k) && policy[k] == m
}

impl Config {
    /// The allowed authentication methods, keyed by priority (a lower key
    /// is a higher priority): username/password first, then no
    /// authentication.
    pub fn get_allowed_authentication_method() -> (m: BTreeMap<u8, u8>)
        ensures
            m@ == map![0u8 => Authentication::UsernamePassword.spec_as_u8(), 100u8 => Authentication::NoAuthentication.spec_as_u8()],
    {
        let mut map: BTreeMap<u8, u8> = BTreeMap::new();
        map.insert(0, Authentication::UsernamePassword.as_u8());
        map.insert(100, Authentication::NoAuthentication.as_u8());
        proof {
            assert(map@ =~= map![0u8 => Authentication::UsernamePassword.spec_as_u8(), 100u8 => Authentication::NoAuthentication.spec_as_u8()]);
        }
        map
    }
}

} // verus!
