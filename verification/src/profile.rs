//! The execution-profile settings that every statement is run with.

use vstd::prelude::*;

use crate::request::NodeAddress;

verus! {

/// Consistency levels of a Scylla request.
#[derive(Debug, Clone, Copy, PartialEq, Eq, Structural)]
pub enum ConsistencyLevel {
    Any,
    One,
    Two,
    Three,
    Quorum,
    All,
    LocalQuorum,
    EachQuorum,
    LocalOne,
    Serial,
    LocalSerial,
}

/// How a request picks the node it is sent to.
#[derive(Debug, Clone, Copy, PartialEq, Eq, Structural)]
pub enum LoadBalancing {
    /// The driver's default token- and datacenter-aware policy.
    Default,
    /// Every request goes to this one node, with no fallback.
    SingleTarget(NodeAddress),
}

/// How failed requests are retried.
#[derive(Debug, Clone, Copy, PartialEq, Eq, Structural)]
pub enum RetryPolicyKind {
    /// The driver's default retry policy.
    Default,
}

/// An execution profile: consistency, request timeout, load balancing and
/// retry policy.
#[derive(Debug, Clone, Copy, PartialEq, Eq, Structural)]
pub struct ProfileSettings {
    pub consistency: ConsistencyLevel,
    pub request_timeout_secs: Option<u64>,
    pub load_balancing: LoadBalancing,
    pub retry: RetryPolicyKind,
}

/// The timeout that every profile sets, in seconds.
pub open spec fn spec_request_timeout_secs() -> u64 {
    42
}

/// The profile shape that this application uses everywhere, with the given
/// load balancing.
pub open spec fn spec_profile(load_balancing: LoadBalancing) -> ProfileSettings {
    ProfileSettings {
        consistency: ConsistencyLevel::LocalOne,
        request_timeout_secs: Some(spec_request_timeout_secs()),
        load_balancing,
        retry: RetryPolicyKind::Default,
    }
}

fn profile_with(load_balancing: LoadBalancing) -> (r: ProfileSettings)
    ensures
        r == spec_profile(load_balancing),
{
    ProfileSettings {
        consistency: ConsistencyLevel::LocalOne,
        request_timeout_secs: Some(42),
        load_balancing,
        retry: RetryPolicyKind::Default,
    }
}

/// The session-wide default profile: local-one consistency, a 42 s timeout,
/// the default load-balancing and retry policies.
pub fn default_profile() -> (r: ProfileSettings)
    ensures
        r == spec_profile(LoadBalancing::Default),
{
    profile_with(LoadBalancing::Default)
}

/// The profile of a request pinned to one node: as the default profile, but
/// every request is sent to `node` alone.
pub fn exec_profile_with_single_target_lb(node: NodeAddress) -> (r: ProfileSettings)
    ensures
        r == spec_profile(LoadBalancing::SingleTarget(node)),
{
    profile_with(LoadBalancing::SingleTarget(node))
}

} // verus!
