//! Security-policy snapshot: the values the pipeline needs from the shared
//! configuration, copied out by the host before inspection starts, and the
//! (host, path) resolution over them. The first policy whose host matches
//! exactly and whose path prefix matches wins.
use vstd::prelude::*;
use crate::strutil::{spec_starts_with, starts_with_str, str_eq};

verus! {

/// Per-policy limits for request decoding and content filtering.
#[derive(Debug, Clone, Copy, PartialEq, Eq, Structural)]
pub struct ContentFilterProfile {
    /// Largest accepted body, in bytes.
    pub max_body_size: usize,
    /// How deeply the body may be decoded; zero forbids parsing it.
    pub max_body_depth: usize,
}

/// One named policy with its matching key.
#[derive(Debug)]
pub struct SecurityPolicy {
    pub name: String,
    pub host: String,
    pub path_prefix: String,
    pub content_filter_profile: ContentFilterProfile,
}

/// Ghost encoding of a policy.
pub open spec fn secpol_view(p: SecurityPolicy) -> (
    Seq<char>,
    Seq<char>,
    Seq<char>,
    ContentFilterProfile,
) {
    (p.name@, p.host@, p.path_prefix@, p.content_filter_profile)
}

/// Read-only configuration snapshot handed to the pipeline.
#[derive(Debug)]
pub struct Config {
    pub revision: String,
    pub policies: Vec<SecurityPolicy>,
    pub content_filter_profiles: Vec<(String, ContentFilterProfile)>,
    /// Flow-rule entries, copied out of the snapshot and carried through
    /// the handoff for downstream analysis; this core never reads them.
    pub flows: Vec<String>,
}

/// Whether one policy matches a (host, path) pair.
pub open spec fn matches_pol(p: SecurityPolicy, host: Seq<char>, path: Seq<char>) -> bool {
    p.host@ == host && spec_starts_with(path, p.path_prefix@)
}

/// Index of the first matching policy, if any.
pub open spec fn spec_match(
    pols: Seq<SecurityPolicy>,
    host: Seq<char>,
    path: Seq<char>,
) -> Option<int>
    decreases pols.len(),
{
    if pols.len() == 0 {
        None
    } else if matches_pol(pols.first(), host, path) {
        Some(0int)
    } else {
        match spec_match(pols.drop_first(), host, path) {
            Some(i) => Some(i + 1),
            None => None,
        }
    }
}

/// An optional index shifted by an offset.
pub open spec fn opt_shift(o: Option<int>, d: int) -> Option<int> {
    match o {
        Some(k) => Some(k + d),
        None => None,
    }
}

impl SecurityPolicy {
    /// Deep copy.
    pub fn duplicate(&self) -> (r: SecurityPolicy)
        ensures
            secpol_view(r) == secpol_view(*self),
    {
        SecurityPolicy {
            name: self.name.clone(),
            host: self.host.clone(),
            path_prefix: self.path_prefix.clone(),
            content_filter_profile: self.content_filter_profile,
        }
    }
}

/// Resolve the policy for a (host, path) pair: a copy of the first match.
pub fn match_securitypolicy(host: &str, path: &str, cfg: &Config) -> (r: Option<
    SecurityPolicy,
>)
    ensures
        r is Some <==> spec_match(cfg.policies@, host@, path@) is Some,
        r matches Some(p) ==> {
            let i = spec_match(cfg.policies@, host@, path@)->Some_0;
            &&& secpol_view(p) == secpol_view(cfg.policies@[i])
            &&& matches_pol(cfg.policies@[i], host@, path@)
        },
{
    let n = cfg.policies.len();
    let mut i: usize = 0;
    proof {
        assert(cfg.policies@.skip(0) =~= cfg.policies@);
    }
    while i < n
        invariant
            0 <= i <= n,
            n == cfg.policies.len(),
            spec_match(cfg.policies@, host@, path@) == opt_shift(
                spec_match(cfg.policies@.skip(i as int), host@, path@),
                i as int,
            ),
        decreases n - i,
    {
        proof {
            assert(cfg.policies@.skip(i as int).first() == cfg.policies@[i as int]);
            assert(cfg.policies@.skip(i as int).drop_first() =~= cfg.policies@.skip(
                i as int + 1,
            ));
        }
        let p = &cfg.policies[i];
        if str_eq(p.host.as_str(), host) && starts_with_str(path, p.path_prefix.as_str()) {
            return Some(p.duplicate());
        }
        i += 1;
    }
    proof {
        assert(cfg.policies@.skip(n as int) =~= Seq::<SecurityPolicy>::empty());
    }
    None
}

/// Value of the first profile registered under `id` (exact name match).
pub open spec fn spec_profile(
    profiles: Seq<(String, ContentFilterProfile)>,
    id: Seq<char>,
) -> Option<ContentFilterProfile>
    decreases profiles.len(),
{
    if profiles.len() == 0 {
        None
    } else if profiles.first().0@ == id {
        Some(profiles.first().1)
    } else {
        spec_profile(profiles.drop_first(), id)
    }
}

/// Look a content-filter profile up by its identifier.
pub fn get_content_filter_profile(cfg: &Config, id: &str) -> (r: Option<ContentFilterProfile>)
    ensures
        r == spec_profile(cfg.content_filter_profiles@, id@),
{
    let n = cfg.content_filter_profiles.len();
    let mut i: usize = 0;
    proof {
        assert(cfg.content_filter_profiles@.skip(0) =~= cfg.content_filter_profiles@);
    }
    while i < n
        invariant
            0 <= i <= n,
            n == cfg.content_filter_profiles.len(),
            spec_profile(cfg.content_filter_profiles@, id@) == spec_profile(
                cfg.content_filter_profiles@.skip(i as int),
                id@,
            ),
        decreases n - i,
    {
        proof {
            assert(cfg.content_filter_profiles@.skip(i as int).first()
                == cfg.content_filter_profiles@[i as int]);
            assert(cfg.content_filter_profiles@.skip(i as int).drop_first()
                =~= cfg.content_filter_profiles@.skip(i as int + 1));
        }
        let entry = &cfg.content_filter_profiles[i];
        if str_eq(entry.0.as_str(), id) {
            return Some(entry.1);
        }
        i += 1;
    }
    proof {
        assert(cfg.content_filter_profiles@.skip(n as int) =~= Seq::<
            (String, ContentFilterProfile),
        >::empty());
    }
    None
}

} // verus!
