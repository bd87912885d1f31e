//! Allocation policies, configuration errors, and the bounded-memory
//! resource context that each benchmark case runs under.

use vstd::prelude::*;
use crate::strutil::str_eq;

verus! {

/// The closed enumeration of memory-allocation policies.
///
/// `FairShare` lets concurrent consumers coexist within the budget by asking
/// them to spill; `Greedy` grants memory first-come and fails a request once
/// the budget is exhausted.
#[derive(Clone, Copy, Debug, PartialEq, Eq, Structural)]
pub enum PoolPolicy {
    FairShare,
    Greedy,
}

/// Configuration errors, detected before any engine session is built.
#[derive(Clone, Copy, Debug, PartialEq, Eq, Structural)]
pub enum ConfigError {
    /// The allocation-policy tag names no known policy.
    UnknownPolicy,
    /// A selected query has no default memory-limit list and no explicit
    /// override was given.
    MissingMemoryLimits { query_id: usize },
}

/// The policy named by a tag: `"fair"` and `"greedy"` are the only
/// recognized tags.
pub open spec fn spec_parse_policy(tag: Seq<char>) -> Option<PoolPolicy> {
    if tag == "fair"@ {
        Some(PoolPolicy::FairShare)
    } else if tag == "greedy"@ {
        Some(PoolPolicy::Greedy)
    } else {
        None
    }
}

/// Parse an allocation-policy tag.
pub fn parse_policy(tag: &str) -> (r: Result<PoolPolicy, ConfigError>)
    ensures
        r == match spec_parse_policy(tag@) {
            Some(p) => Ok::<PoolPolicy, ConfigError>(p),
            None => Err::<PoolPolicy, ConfigError>(ConfigError::UnknownPolicy),
        },
{
    if str_eq(tag, "fair") {
        Ok(PoolPolicy::FairShare)
    } else if str_eq(tag, "greedy") {
        Ok(PoolPolicy::Greedy)
    } else {
        Err(ConfigError::UnknownPolicy)
    }
}

/// A bounded-memory execution context: a byte budget and the policy that
/// shares it. Exclusively owned by one engine session for one case.
pub struct ResourceContext {
    budget: u64,
    policy: PoolPolicy,
}

impl ResourceContext {
    /// The byte budget the context was built with.
    pub closed spec fn spec_budget(&self) -> u64 {
        self.budget
    }

    /// The allocation policy the context was built with.
    pub closed spec fn spec_policy(&self) -> PoolPolicy {
        self.policy
    }

    /// A context is well-formed when its budget is positive.
    pub open spec fn wf(&self) -> bool {
        self.spec_budget() > 0
    }

    /// The factory: build a context from a policy tag and a byte budget.
    /// An unrecognized tag is a configuration error and no context (and so
    /// no session) is built; the budget of a built context is exactly the
    /// requested byte value.
    pub fn new(policy_tag: &str, budget: u64) -> (r: Result<ResourceContext, ConfigError>)
        requires
            budget > 0,
        ensures
            r is Ok <==> spec_parse_policy(policy_tag@) is Some,
            r matches Ok(c) ==> {
                &&& Some(c.spec_policy()) == spec_parse_policy(policy_tag@)
                &&& c.spec_budget() == budget
                &&& c.wf()
            },
            r is Err ==> r == Err::<ResourceContext, ConfigError>(ConfigError::UnknownPolicy),
    {
        match parse_policy(policy_tag) {
            Ok(policy) => Ok(ResourceContext { budget, policy }),
            Err(e) => Err(e),
        }
    }

    /// Build a context from an already-parsed policy.
    pub fn from_parts(policy: PoolPolicy, budget: u64) -> (r: ResourceContext)
        requires
            budget > 0,
        ensures
            r.spec_policy() == policy,
            r.spec_budget() == budget,
            r.wf(),
    {
        ResourceContext { budget, policy }
    }

    /// The reported budget: exactly the byte value the context was built
    /// with, with no rounding.
    pub fn budget(&self) -> (r: u64)
        ensures
            r == self.spec_budget(),
    {
        self.budget
    }

    /// The policy the context enforces.
    pub fn policy(&self) -> (r: PoolPolicy)
        ensures
            r == self.spec_policy(),
    {
        self.policy
    }
}

} // verus!
