//! Request-inspection decision core of a web-application-firewall proxy:
//! given one request and a security-policy snapshot it produces a pass or
//! block decision with ordered reasons, a tag set and telemetry. A
//! human-verification capability is consulted through the gateway trait in
//! `grasshopper`, and the whole pipeline can be driven poll by poll through
//! the executor in `executor`.
pub mod config;
pub mod executor;
pub mod grasshopper;
pub mod interface;
pub mod requestfields;
pub mod strutil;
pub mod utils;
pub mod wire;

use vstd::prelude::*;

use crate::config::{matches_pol, secpol_view, spec_match, spec_profile, Config, SecurityPolicy};
use crate::grasshopper::{
    GhOutputV, GhQueryV, Grasshopper, GHMode, InputData, PrecisionLevel, query_view,
    ghresult_view,
};
use crate::interface::{
    body_too_large, decision_view, reasons_view, tags_has, tags_insert, tags_merge,
    lemma_tags_merge_keeps, AnalyzeResult, Decision, DecisionV, Location, Stats, Tags,
};
use crate::requestfields::{spec_get_ci, RequestField};
use crate::strutil::spec_replace;
use crate::utils::{
    map_request, maps_request, spec_cookies_of, spec_host, RawRequest, RequestInfo,
};

verus! {

/// The verification-state query presented to the capability: the request's
/// headers, a cookie list holding the decoded `rbzid` token (with `-`
/// folded back to `=`), the client ip and the protocol.
pub open spec fn verification_query(
    headers: Seq<(Seq<char>, Seq<char>)>,
    cookie: Seq<char>,
    ip: Seq<char>,
    protocol: Seq<char>,
) -> GhQueryV {
    (headers, seq![("rbzid"@, spec_replace(cookie, '-', '='))], ip, protocol)
}

/// Everything `challenge_verified` promises: no verification without both
/// the `rbzid` cookie and a user-agent; with both, the flag follows the
/// capability's answer, and a capability failure degrades to "not
/// verified" rather than escalating.
pub open spec fn challenge_verified_post<GH: Grasshopper>(
    gh: &GH,
    headers: Seq<(Seq<char>, Seq<char>)>,
    cookies: Seq<(Seq<char>, Seq<char>)>,
    ip: Seq<char>,
    protocol: Seq<char>,
    r: bool,
) -> bool {
    let c = spec_get_ci(cookies, "rbzid"@);
    let u = spec_get_ci(headers, "user-agent"@);
    &&& (c is None || u is None) ==> !r
    &&& (c is Some && u is Some) ==> exists|res: Result<GhOutputV, Seq<char>>|
        gh.is_human_post(verification_query(headers, c->Some_0, ip, protocol), GHMode::Passive, res)
            && r == (res matches Ok(o) && o.0 != PrecisionLevel::Invalid)
}

/// Verification-state check: when the request carries an `rbzid` cookie
/// and a user-agent, decode the cookie (`-` back to `=`) and ask the
/// capability whether the request looks human at passive strictness. Any
/// missing input or capability failure means "not verified".
pub fn challenge_verified<GH: Grasshopper>(gh: &GH, reqinfo: &RequestInfo) -> (r: bool)
    ensures
        challenge_verified_post(
            gh,
            reqinfo.headers@,
            reqinfo.cookies@,
            reqinfo.ip@,
            reqinfo.protocol@,
            r,
        ),
{
    let rbzid = match reqinfo.cookies.get("rbzid") {
        Some(c) => c,
        None => {
            return false;
        },
    };
    let ua = reqinfo.headers.get("user-agent");
    if ua.is_none() {
        return false;
    }
    proof {
        reveal_strlit("=");
    }
    let token = crate::strutil::replace_char(rbzid.as_str(), '-', "=");
    let mut decoded = RequestField::new();
    decoded.add("rbzid".to_owned(), token);
    let input = InputData {
        headers: &reqinfo.headers,
        cookies: &decoded,
        ip: reqinfo.ip.as_str(),
        protocol: reqinfo.protocol.as_str(),
    };
    let ghost q = verification_query(
        reqinfo.headers@,
        spec_get_ci(reqinfo.cookies@, "rbzid"@)->Some_0,
        reqinfo.ip@,
        reqinfo.protocol@,
    );
    proof {
        assert(query_view(input) =~= q);
    }
    let answer = gh.is_human(input, GHMode::Passive);
    let ghost res = ghresult_view(answer);
    proof {
        assert(gh.is_human_post(q, GHMode::Passive, res));
    }
    match answer {
        Ok(out) => out.precision_level.is_human(),
        Err(_) => false,
    }
}

/// With no configured capability — the always-failing stub — the
/// verification-state check always reports "not verified": requests are
/// unverified by default, never trusted by default.
pub proof fn lemma_no_capability_not_verified(
    gh: &crate::grasshopper::DummyGrasshopper,
    headers: Seq<(Seq<char>, Seq<char>)>,
    cookies: Seq<(Seq<char>, Seq<char>)>,
    ip: Seq<char>,
    protocol: Seq<char>,
    r: bool,
)
    requires
        challenge_verified_post(gh, headers, cookies, ip, protocol, r),
    ensures
        !r,
{
    let c = spec_get_ci(cookies, "rbzid"@);
    let u = spec_get_ci(headers, "user-agent"@);
    if c is Some && u is Some {
        let res = choose|res: Result<GhOutputV, Seq<char>>|
            gh.is_human_post(
                verification_query(headers, c->Some_0, ip, protocol),
                GHMode::Passive,
                res,
            ) && r == (res matches Ok(o) && o.0 != PrecisionLevel::Invalid);
        assert(res is Err);
    }
}

/// Tags the tagging stage contributes, seeded with the verification flag.
pub open spec fn spec_request_tags(is_human: bool) -> Seq<(Seq<char>, Location)> {
    if is_human {
        seq![("human"@, Location::Request)]
    } else {
        seq![("bot"@, Location::Request)]
    }
}

/// Tagging stage: annotate the request with the outcome of the
/// human-verification check. The wider tagging collaborator (global
/// filters, geo data) is external; its further contributions join the
/// final tag set through the analysis handoff, alongside its decision.
pub fn tag_request(is_human: bool) -> (r: Tags)
    ensures
        r@ == spec_request_tags(is_human),
{
    let mut t = Tags::new();
    if is_human {
        t.insert("human", Location::Request);
        proof {
            assert(t@ =~= spec_request_tags(is_human));
        }
    } else {
        t.insert("bot", Location::Request);
        proof {
            assert(t@ =~= spec_request_tags(is_human));
        }
    }
    t
}

/// Intermediate handoff state: everything downstream analysis needs from
/// the staged part of one inspection.
#[derive(Debug)]
pub struct APhase0 {
    pub stats: Stats,
    pub itags: Tags,
    pub secpolname: String,
    pub securitypolicy: SecurityPolicy,
    pub reqinfo: RequestInfo,
    pub is_human: bool,
    /// The configuration's flow rules, carried through for downstream
    /// analysis, unread by this core.
    pub flows: Vec<String>,
}

/// The tag list every inspection starts from.
pub open spec fn seed_tags() -> Seq<(Seq<char>, Location)> {
    seq![("all"@, Location::Request)]
}

/// Everything `inspect_generic_request_map_init` promises, stage by stage.
pub open spec fn init_post<GH: Grasshopper>(
    cfg: &Config,
    mgh: Option<&GH>,
    raw: &RawRequest,
    r: Result<APhase0, AnalyzeResult>,
) -> bool {
    let m = spec_match(cfg.policies@, spec_host(*raw), raw.meta.path@);
    &&& m is None ==> (r matches Err(res) && {
        &&& res.decision.maction is None
        &&& reasons_view(res.decision.reasons@) == Seq::<crate::interface::ReasonV>::empty()
        &&& res.tags@ == seed_tags()
        &&& maps_request(res.rinfo, *raw, 0)
        &&& res.stats.revision@ == Seq::<char>::empty()
        &&& res.stats.processing_stage == 0
    })
    &&& m matches Some(i) ==> {
        let pol = cfg.policies@[i];
        if body_over_limit(*raw, pol.content_filter_profile.max_body_size as int) {
            r matches Err(res) && {
                &&& res.decision.maction matches Some(a) && crate::interface::action_view(a) == (
                    crate::interface::ActionType::Block,
                    true,
                    None::<Seq<(Seq<char>, Seq<char>)>>,
                    403int,
                    "request body too large"@,
                    None::<Seq<Seq<char>>>,
                )
                &&& reasons_view(res.decision.reasons@) == seq![
                    (
                        2int,
                        Seq::<char>::empty(),
                        pol.content_filter_profile.max_body_size as int,
                        body_len(*raw),
                    ),
                ]
                &&& res.tags@ == seed_tags()
                &&& maps_request(res.rinfo, *raw, 0)
                &&& res.stats.revision@ == Seq::<char>::empty()
                &&& res.stats.processing_stage == 0
            }
        } else {
            r matches Ok(p0) && {
                &&& p0.secpolname@ == pol.name@
                &&& secpol_view(p0.securitypolicy) == secpol_view(pol)
                &&& matches_pol(pol, spec_host(*raw), raw.meta.path@)
                &&& maps_request(p0.reqinfo, *raw, pol.content_filter_profile.max_body_depth)
                &&& p0.stats.revision@ == cfg.revision@
                &&& p0.stats.processing_stage == 1
                &&& (mgh is None ==> !p0.is_human)
                &&& (mgh matches Some(gh) ==> challenge_verified_post(
                    gh,
                    raw.headers@,
                    spec_cookies_of(raw.headers@),
                    raw.ipstr@,
                    raw.meta.protocol@,
                    p0.is_human,
                ))
                &&& p0.itags@ == tags_merge(seed_tags(), spec_request_tags(p0.is_human))
                &&& tags_has(p0.itags@, "all"@)
                &&& crate::interface::strings_view(p0.flows@) == crate::interface::strings_view(
                    cfg.flows@,
                )
            }
        }
    }
}

/// Whether the raw request has a body larger than the given limit.
pub open spec fn body_over_limit(raw: RawRequest, limit: int) -> bool {
    raw.mbody matches Some(b) && b@.len() > limit
}

/// Length of the raw request's body, zero when it has none.
pub open spec fn body_len(raw: RawRequest) -> int {
    match raw.mbody {
        Some(b) => b@.len() as int,
        None => 0,
    }
}

/// The staged part of one inspection: resolve the policy for (host, path),
/// gate on body size, normalize the request, consult the verification
/// state, tag, and hand the intermediate state off for downstream
/// analysis. An unmatched request passes (fail open); an oversized body
/// blocks at once with the body left unparsed (fail closed); both early
/// exits still carry the reserved "all" tag.
pub fn inspect_generic_request_map_init<GH: Grasshopper>(
    cfg: &Config,
    mgh: Option<&GH>,
    raw: &RawRequest,
) -> (r: Result<APhase0, AnalyzeResult>)
    ensures
        init_post(cfg, mgh, raw, r),
{
    let mut tags = Tags::new();
    // the "all" tag is inserted first so it is present even on the
    // early-exit paths
    tags.insert("all", Location::Request);
    proof {
        assert(tags@ =~= seed_tags());
    }
    let host = raw.get_host();
    let secpolicy = match config::match_securitypolicy(host.as_str(), raw.meta.path.as_str(), cfg) {
        Some(p) => p,
        None => {
            let rinfo = map_request(0, raw);
            let decision = Decision::pass(Vec::new());
            proof {
                assert(reasons_view(decision.reasons@) =~= Seq::<
                    crate::interface::ReasonV,
                >::empty());
            }
            return Err(
                AnalyzeResult { decision, tags, rinfo, stats: Stats::new_default() },
            );
        },
    };
    let body_over: bool = match &raw.mbody {
        Some(body) => body.len() > secpolicy.content_filter_profile.max_body_size,
        None => false,
    };
    if body_over {
        let actual: usize = match &raw.mbody {
            Some(body) => body.len(),
            None => 0,
        };
        // the body is refused: build the degraded request view with parse
        // depth zero, so the body is never decoded
        let rinfo = map_request(0, raw);
        let (action, br) = body_too_large(secpolicy.content_filter_profile.max_body_size, actual);
        let mut reasons: Vec<crate::interface::BlockReason> = Vec::new();
        reasons.push(br);
        proof {
            assert(reasons_view(reasons@) =~= seq![
                (
                    2int,
                    Seq::<char>::empty(),
                    secpolicy.content_filter_profile.max_body_size as int,
                    body_len(*raw),
                ),
            ]);
        }
        return Err(
            AnalyzeResult {
                decision: Decision::action(action, reasons),
                tags,
                rinfo,
                stats: Stats::new_default(),
            },
        );
    }
    let reqinfo = map_request(secpolicy.content_filter_profile.max_body_depth, raw);
    // without a capability the request is unverified by default
    let is_human = match mgh {
        Some(gh) => challenge_verified(gh, &reqinfo),
        None => false,
    };
    let ntags = tag_request(is_human);
    tags.extend(ntags);
    proof {
        assert(tags_has(seed_tags(), "all"@)) by {
            assert(seed_tags()[0].0 == "all"@);
        }
        lemma_tags_merge_keeps(seed_tags(), spec_request_tags(is_human), "all"@);
    }
    let stats = Stats::at_stage(&cfg.revision, 1);
    let flows = crate::interface::clone_strings(&cfg.flows);
    Ok(
        APhase0 {
            stats,
            itags: tags,
            secpolname: secpolicy.name.clone(),
            securitypolicy: secpolicy,
            reqinfo,
            is_human,
            flows,
        },
    )
}

/// Every outcome of the staged inspection carries the reserved "all" tag:
/// the early-exit paths (no policy, oversized body) as much as a
/// completed handoff — no path loses it.
pub proof fn lemma_all_tag_present<GH: Grasshopper>(
    cfg: &Config,
    mgh: Option<&GH>,
    raw: &RawRequest,
    r: Result<APhase0, AnalyzeResult>,
)
    requires
        init_post(cfg, mgh, raw, r),
    ensures
        r matches Err(res) ==> tags_has(res.tags@, "all"@),
        r matches Ok(p0) ==> tags_has(p0.itags@, "all"@),
{
    assert(tags_has(seed_tags(), "all"@)) by {
        assert(seed_tags()[0].0 == "all"@);
    }
}

/// No early exit is empty-handed: whenever the staged inspection answers
/// with an action rather than a pass, at least one block reason explains
/// it.
pub proof fn lemma_block_carries_reason<GH: Grasshopper>(
    cfg: &Config,
    mgh: Option<&GH>,
    raw: &RawRequest,
    r: Result<APhase0, AnalyzeResult>,
)
    requires
        init_post(cfg, mgh, raw, r),
    ensures
        r matches Err(res) ==> (res.decision.maction is Some ==> reasons_view(
            res.decision.reasons@,
        ).len() > 0),
{
}

/// Everything the content-filter entry point promises.
pub open spec fn content_filter_post(
    cfg: &Config,
    raw: &RawRequest,
    content_filter_id: Seq<char>,
    cf_verdict: Option<DecisionV>,
    cf_tags: Seq<(Seq<char>, Location)>,
    r: (Decision, RequestInfo, Tags, Stats),
) -> bool {
    let prof = spec_profile(cfg.content_filter_profiles@, content_filter_id);
    &&& prof is None ==> {
        &&& r.0.maction is None
        &&& reasons_view(r.0.reasons@) == Seq::<crate::interface::ReasonV>::empty()
        &&& maps_request(r.1, *raw, 25)
        &&& r.2@ == Seq::<(Seq<char>, Location)>::empty()
        &&& r.3.revision@ == Seq::<char>::empty()
        &&& r.3.processing_stage == 0
    }
    &&& prof matches Some(p) ==> {
        if body_over_limit(*raw, p.max_body_size as int) {
            &&& r.0.maction matches Some(a) && crate::interface::action_view(a) == (
                crate::interface::ActionType::Block,
                true,
                None::<Seq<(Seq<char>, Seq<char>)>>,
                403int,
                "request body too large"@,
                None::<Seq<Seq<char>>>,
            )
            &&& reasons_view(r.0.reasons@) == seq![
                (2int, Seq::<char>::empty(), p.max_body_size as int, body_len(*raw)),
            ]
            &&& maps_request(r.1, *raw, 0)
            &&& r.2@ == Seq::<(Seq<char>, Location)>::empty()
            &&& r.3.revision@ == cfg.revision@
        } else {
            &&& decision_view(r.0) == (match cf_verdict {
                Some(d) => d,
                None => (
                    None::<crate::interface::ActionV>,
                    Seq::<crate::interface::ReasonV>::empty(),
                ),
            })
            &&& maps_request(r.1, *raw, p.max_body_depth)
            &&& r.2@ == cf_tags
            &&& r.3.revision@ == cfg.revision@
        }
    }
}

/// Content-filter-only entry point: resolve the named content-filter
/// profile, gate on body size, normalize the request, and return the
/// outcome of the external content-filter engine run — its verdict
/// (`cf_verdict`; `None` when the engine found nothing to object to or
/// was unavailable, both of which pass, as an advisory engine failure
/// must not block) together with the tags it contributed (`cf_tags`;
/// empty when it never ran). On the early exits the engine has not run,
/// so the returned tag set is empty.
pub fn content_filter_check_generic_request_map(
    cfg: &Config,
    raw: &RawRequest,
    content_filter_id: &str,
    cf_verdict: Option<Decision>,
    cf_tags: Tags,
) -> (r: (Decision, RequestInfo, Tags, Stats))
    ensures
        content_filter_post(
            cfg,
            raw,
            content_filter_id@,
            crate::interface::opt_decision_view(cf_verdict),
            cf_tags@,
            r,
        ),
{
    let tags = Tags::new();
    let profile = match config::get_content_filter_profile(cfg, content_filter_id) {
        Some(p) => p,
        None => {
            // no such profile: pass, with a request view parsed at the
            // fallback depth
            let rinfo = map_request(25, raw);
            let decision = Decision::pass(Vec::new());
            proof {
                assert(reasons_view(decision.reasons@) =~= Seq::<
                    crate::interface::ReasonV,
                >::empty());
            }
            return (decision, rinfo, tags, Stats::new_default());
        },
    };
    let body_over: bool = match &raw.mbody {
        Some(body) => body.len() > profile.max_body_size,
        None => false,
    };
    if body_over {
        let actual: usize = match &raw.mbody {
            Some(body) => body.len(),
            None => 0,
        };
        let rinfo = map_request(0, raw);
        let (action, br) = body_too_large(profile.max_body_size, actual);
        let mut reasons: Vec<crate::interface::BlockReason> = Vec::new();
        reasons.push(br);
        proof {
            assert(reasons_view(reasons@) =~= seq![
                (2int, Seq::<char>::empty(), profile.max_body_size as int, body_len(*raw)),
            ]);
        }
        return (
            Decision::action(action, reasons),
            rinfo,
            tags,
            Stats::at_stage(&cfg.revision, 1),
        );
    }
    let rinfo = map_request(profile.max_body_depth, raw);
    let decision = match cf_verdict {
        Some(d) => d,
        None => {
            let d = Decision::pass(Vec::new());
            proof {
                assert(reasons_view(d.reasons@) =~= Seq::<crate::interface::ReasonV>::empty());
            }
            d
        },
    };
    (decision, rinfo, cf_tags, Stats::at_stage(&cfg.revision, 1))
}

} // verus!
