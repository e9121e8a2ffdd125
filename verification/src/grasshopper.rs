//! Human-verification gateway and the two-phase browser-challenge protocol.
//!
//! The gateway is a capability the host may or may not configure. It is
//! modelled as a trait whose two operations each come with an
//! implementation-chosen postcondition, so a verified caller can state
//! exactly how its own result depends on whatever the capability answered,
//! without fixing which implementation is active. The always-failing stub
//! lives here; a cross-boundary implementation is the host's business.
use vstd::prelude::*;
use crate::interface::{
    decision_view, pairs_view, reasons_view, strings_view, Action, ActionType, BlockReason,
    Decision, DecisionV,
};
use crate::requestfields::{spec_get_ci, RequestField};
use crate::strutil::{spec_replace, spec_starts_with, starts_with_str, replace_char};
use crate::utils::spec_zebra;

verus! {

/// Confidence category returned by a verification call; `Invalid` is the
/// only value that does not indicate a human origin.
#[derive(Debug, Clone, Copy, PartialEq, Eq, Structural)]
pub enum PrecisionLevel {
    Active,
    Passive,
    Interactive,
    MobileSdk,
    Invalid,
}

impl PrecisionLevel {
    /// Whether this level indicates a human origin.
    pub fn is_human(&self) -> (r: bool)
        ensures
            r == (*self != PrecisionLevel::Invalid),
    {
        *self != PrecisionLevel::Invalid
    }
}

/// Verification strictness requested for one call.
#[derive(Debug, Clone, Copy, PartialEq, Eq, Structural)]
pub enum GHMode {
    Passive,
    Active,
    Interactive,
}

/// Wire query to the capability: borrowed views of the request fields.
#[derive(Debug)]
pub struct InputData<'t> {
    pub headers: &'t RequestField,
    pub cookies: &'t RequestField,
    pub ip: &'t str,
    pub protocol: &'t str,
}

/// Decoded wire response from the capability.
#[derive(Debug)]
pub struct OutputData {
    pub precision_level: PrecisionLevel,
    pub str_response: String,
    pub headers: Vec<(String, String)>,
}

/// Ghost encoding of a query: headers, cookies, client ip, protocol.
pub type GhQueryV = (
    Seq<(Seq<char>, Seq<char>)>,
    Seq<(Seq<char>, Seq<char>)>,
    Seq<char>,
    Seq<char>,
);

/// Ghost encoding of a response: level, response body, response headers.
pub type GhOutputV = (PrecisionLevel, Seq<char>, Seq<(Seq<char>, Seq<char>)>);

pub open spec fn query_view(i: InputData) -> GhQueryV {
    (i.headers@, i.cookies@, i.ip@, i.protocol@)
}

pub open spec fn output_view(o: OutputData) -> GhOutputV {
    (o.precision_level, o.str_response@, pairs_view(o.headers@))
}

pub open spec fn ghresult_view(r: Result<OutputData, String>) -> Result<GhOutputV, Seq<char>> {
    match r {
        Ok(o) => Ok(output_view(o)),
        Err(e) => Err(e@),
    }
}

pub open spec fn strresult_view(r: Result<String, String>) -> Result<Seq<char>, Seq<char>> {
    match r {
        Ok(o) => Ok(o@),
        Err(e) => Err(e@),
    }
}

/// The human-verification capability.
///
/// Each implementation picks the two postcondition predicates and must make
/// its operations satisfy them; verified callers only ever learn what those
/// predicates state about the value that came back.
pub trait Grasshopper {
    /// What this implementation guarantees of an `is_human` answer; an
    /// implementation that does not override it guarantees nothing.
    open spec fn is_human_post(&self, query: GhQueryV, mode: GHMode, r: Result<GhOutputV, Seq<char>>) -> bool {
        true
    }

    /// What this implementation guarantees of a `verify_challenge`
    /// answer; an implementation that does not override it guarantees
    /// nothing.
    open spec fn verify_post(&self, headers: Seq<(Seq<char>, Seq<char>)>, r: Result<Seq<char>, Seq<char>>) -> bool {
        true
    }

    /// Ask whether the request looks human-originated, at the requested
    /// strictness.
    fn is_human(&self, input: InputData<'_>, mode: GHMode) -> (r: Result<OutputData, String>)
        ensures
            self.is_human_post(query_view(input), mode, ghresult_view(r)),
    ;

    /// Validate a previously issued challenge response embedded in the
    /// request headers; on success the opaque verification token returns.
    fn verify_challenge(&self, headers: &RequestField) -> (r: Result<String, String>)
        ensures
            self.verify_post(headers@, strresult_view(r)),
    ;
}

/// Stub capability for hosts without a native module: both operations
/// always fail, so every caller treats the request as not verified.
#[derive(Debug)]
pub struct DummyGrasshopper {}

impl Grasshopper for DummyGrasshopper {
    open spec fn is_human_post(&self, query: GhQueryV, mode: GHMode, r: Result<GhOutputV, Seq<char>>) -> bool {
        r matches Err(e) && e == "not implemented"@
    }

    open spec fn verify_post(&self, headers: Seq<(Seq<char>, Seq<char>)>, r: Result<Seq<char>, Seq<char>>) -> bool {
        r matches Err(e) && e == "not implemented"@
    }

    fn is_human(&self, input: InputData<'_>, mode: GHMode) -> (r: Result<OutputData, String>) {
        Err("not implemented".to_owned())
    }

    fn verify_challenge(&self, headers: &RequestField) -> (r: Result<String, String>) {
        Err("not implemented".to_owned())
    }
}

/// Ghost shape of the fail-closed internal-error decision.
pub open spec fn gh_fail_decision_view(reason: Seq<char>) -> DecisionV {
    (
        Some(
            (
                ActionType::Block,
                true,
                None::<Seq<(Seq<char>, Seq<char>)>>,
                500int,
                "internal_error"@,
                None::<Seq<Seq<char>>>,
            ),
        ),
        seq![(0int, reason, 0int, 0int)],
    )
}

/// Fail-closed decision for a verification-capability failure that occurred
/// while a challenge decision had to be produced: status 500, block mode,
/// one unknown-phase-01 reason.
pub fn gh_fail_decision(reason: &str) -> (r: Decision)
    ensures
        decision_view(r) == gh_fail_decision_view(reason@),
{
    let r = Decision::action(
        Action {
            atype: ActionType::Block,
            block_mode: true,
            headers: None,
            status: 500,
            content: "internal_error".to_owned(),
            extra_tags: None,
        },
        vec![BlockReason::phase01_unknown(reason)],
    );
    proof {
        assert(reasons_view(r.reasons@) =~= seq![(0int, reason@, 0int, 0int)]);
        assert(decision_view(r) =~= gh_fail_decision_view(reason@));
    }
    r
}

/// The query a phase-01 issuance presents to the capability: only the
/// user-agent is known at that point.
pub open spec fn phase01_query(ua: Seq<char>) -> GhQueryV {
    (
        seq![("user-agent"@, ua)],
        Seq::<(Seq<char>, Seq<char>)>::empty(),
        Seq::<char>::empty(),
        Seq::<char>::empty(),
    )
}

/// Ghost shape of the decision phase-01 produces for a given capability
/// answer: on success, a status-247 action carrying exactly the response
/// body and headers the capability prescribed, tagged `challenge_phase01`,
/// with the reasons accumulated so far; on failure, the fail-closed
/// internal-error decision.
pub open spec fn phase01_decision_view(
    res: Result<GhOutputV, Seq<char>>,
    reasons: Seq<crate::interface::ReasonV>,
) -> DecisionV {
    match res {
        Ok(o) => (
            Some((ActionType::Block, true, Some(o.2), 247int, o.1, Some(seq!["challenge_phase01"@]))),
            reasons,
        ),
        Err(e) => gh_fail_decision_view(e),
    }
}

/// Assemble the phase-01 decision from the capability's answer.
pub fn phase01_decision(out: Result<OutputData, String>, reasons: Vec<BlockReason>) -> (r:
    Decision)
    ensures
        decision_view(r) == phase01_decision_view(ghresult_view(out), reasons_view(reasons@)),
{
    match out {
        Ok(o) => {
            let ghost ov = output_view(o);
            let mut tags: Vec<String> = Vec::new();
            tags.push("challenge_phase01".to_owned());
            proof {
                assert(strings_view(tags@) =~= seq!["challenge_phase01"@]);
            }
            let r = Decision::action(
                Action {
                    atype: ActionType::Block,
                    block_mode: true,
                    headers: Some(o.headers),
                    status: 247,
                    content: o.str_response,
                    extra_tags: Some(tags),
                },
                reasons,
            );
            proof {
                assert(decision_view(r) =~= phase01_decision_view(Ok(ov), reasons_view(reasons@)));
            }
            r
        },
        Err(e) => gh_fail_decision(e.as_str()),
    }
}

/// Issue a phase-01 browser challenge: ask the capability for the challenge
/// payload at active strictness and wrap it in a status-247 decision,
/// carrying the block reasons accumulated so far. A capability failure here
/// escalates to the fail-closed internal-error decision.
pub fn challenge_phase01<GH: Grasshopper>(gh: &GH, ua: &str, reasons: Vec<BlockReason>) -> (r:
    Decision)
    ensures
        exists|res: Result<GhOutputV, Seq<char>>|
            gh.is_human_post(phase01_query(ua@), GHMode::Active, res) && decision_view(r)
                == phase01_decision_view(res, reasons_view(reasons@)),
{
    let mut hdrs = RequestField::new();
    hdrs.add("user-agent".to_owned(), ua.to_owned());
    let cookies = RequestField::new();
    let input = InputData { headers: &hdrs, cookies: &cookies, ip: "", protocol: "" };
    proof {
        reveal_strlit("");
        assert(""@ =~= Seq::<char>::empty());
        assert(query_view(input) =~= phase01_query(ua@));
    }
    let out = gh.is_human(input, GHMode::Active);
    let ghost res = ghresult_view(out);
    proof {
        assert(gh.is_human_post(phase01_query(ua@), GHMode::Active, res));
    }
    phase01_decision(out, reasons)
}

/// The reserved phase-02 verification path namespace.
pub open spec fn phase02_path_prefix() -> Seq<char> {
    "/7060ac19f50208cbb6b45328ef94140a612ee92387e015594234077b4d1e64f1/"@
}

/// The verification cookie minted on phase-02 success: the token with `=`
/// folded to `-` so it satisfies cookie-value character restrictions.
pub open spec fn phase02_cookie(token: Seq<char>) -> Seq<char> {
    "rbzid="@ + spec_replace(token, '=', '-') + "; Path=/; HttpOnly"@
}

/// Ghost shape of the phase-02 decision for a verified token: status 248,
/// block mode, the minted `Set-Cookie` header, tagged `challenge_phase02`,
/// with the single phase-02 reason.
pub open spec fn phase02_decision_view(token: Seq<char>) -> DecisionV {
    (
        Some(
            (
                ActionType::Block,
                true,
                Some(seq![("Set-Cookie"@, phase02_cookie(token))]),
                248int,
                "{}"@,
                Some(seq!["challenge_phase02"@]),
            ),
        ),
        seq![(1int, Seq::<char>::empty(), 0int, 0int)],
    )
}

/// Build the phase-02 decision for a token the capability accepted.
pub fn phase02_decision(token: &str) -> (r: Decision)
    ensures
        decision_view(r) == phase02_decision_view(token@),
{
    proof {
        reveal_strlit("-");
    }
    let folded = replace_char(token, '=', "-");
    let mut cookie: String = "rbzid=".to_owned();
    cookie.append(folded.as_str());
    cookie.append("; Path=/; HttpOnly");
    proof {
        assert(cookie@ == phase02_cookie(token@));
    }
    let mut hdrs: Vec<(String, String)> = Vec::new();
    hdrs.push(("Set-Cookie".to_owned(), cookie));
    let mut tags: Vec<String> = Vec::new();
    tags.push("challenge_phase02".to_owned());
    let mut reasons: Vec<BlockReason> = Vec::new();
    reasons.push(BlockReason::phase02());
    proof {
        assert(pairs_view(hdrs@) =~= seq![("Set-Cookie"@, phase02_cookie(token@))]);
        assert(strings_view(tags@) =~= seq!["challenge_phase02"@]);
        assert(reasons_view(reasons@) =~= seq![(1int, Seq::<char>::empty(), 0int, 0int)]);
    }
    let r = Decision::action(
        Action {
            atype: ActionType::Block,
            block_mode: true,
            headers: Some(hdrs),
            status: 248,
            content: "{}".to_owned(),
            extra_tags: Some(tags),
        },
        reasons,
    );
    proof {
        assert(decision_view(r) =~= phase02_decision_view(token@));
    }
    r
}

/// Round trip of the cookie-value substitution: for a token that contains
/// `=` and no `-`, folding `=` to `-` for the cookie and folding `-` back
/// to `=` on the next request recovers exactly the original token. (A
/// token that already contains `-` is outside this law: the inverse
/// substitution would turn that `-` into `=` as well.)
pub proof fn lemma_cookie_round_trip(t: Seq<char>)
    requires
        exists|i: int| 0 <= i < t.len() && t[i] == '=',
        forall|i: int| 0 <= i < t.len() ==> t[i] != '-',
    ensures
        spec_replace(spec_replace(t, '=', '-'), '-', '=') == t,
{
    assert(spec_replace(spec_replace(t, '=', '-'), '-', '=') =~= t);
}

/// When a phase-02 verification applies at all: the reserved path prefix,
/// a user-agent header, and an embedded proof token must all be present.
pub open spec fn phase02_applicable(uri: Seq<char>, headers: Seq<(Seq<char>, Seq<char>)>) -> bool {
    &&& spec_starts_with(uri, phase02_path_prefix())
    &&& spec_get_ci(headers, "user-agent"@) is Some
    &&& spec_zebra(headers) is Some
}

/// Everything `challenge_phase02` promises: no decision unless applicable;
/// when applicable, the outcome follows the capability's verdict — a
/// decision of the exact phase-02 shape for the token it accepted, or no
/// decision at all when it rejected the proof.
pub open spec fn phase02_post<GH: Grasshopper>(
    gh: &GH,
    uri: Seq<char>,
    headers: Seq<(Seq<char>, Seq<char>)>,
    r: Option<DecisionV>,
) -> bool {
    &&& !phase02_applicable(uri, headers) ==> r is None
    &&& phase02_applicable(uri, headers) ==> exists|res: Result<Seq<char>, Seq<char>>|
        gh.verify_post(headers, res) && r == (match res {
            Ok(t) => Some(phase02_decision_view(t)),
            Err(_) => None::<DecisionV>,
        })
}

/// Phase 02 (verify): for a request on the reserved verification namespace
/// carrying a user-agent and a proof token, ask the capability to validate
/// the proof; on success mint the verification cookie in a status-248
/// decision. Any missing precondition or a rejected proof yields no
/// decision — the pipeline proceeds as if phase 02 were not applicable.
pub fn challenge_phase02<GH: Grasshopper>(gh: &GH, uri: &str, headers: &RequestField) -> (r:
    Option<Decision>)
    ensures
        phase02_post(gh, uri@, headers@, crate::interface::opt_decision_view(r)),
{
    if !starts_with_str(uri, "/7060ac19f50208cbb6b45328ef94140a612ee92387e015594234077b4d1e64f1/")
    {
        return None;
    }
    let ua = headers.get("user-agent");
    if ua.is_none() {
        return None;
    }
    let workproof = crate::utils::extract_zebra(headers);
    if workproof.is_none() {
        return None;
    }
    let verified = gh.verify_challenge(headers);
    let ghost res = strresult_view(verified);
    proof {
        assert(gh.verify_post(headers@, res));
    }
    match verified {
        Ok(token) => Some(phase02_decision(token.as_str())),
        Err(_) => None,
    }
}

/// With no configured capability — the always-failing stub — phase 02
/// never produces a decision: its preconditions include a successful
/// proof verification, which the stub cannot deliver.
pub proof fn lemma_no_capability_no_phase02(
    gh: &DummyGrasshopper,
    uri: Seq<char>,
    headers: Seq<(Seq<char>, Seq<char>)>,
    r: Option<DecisionV>,
)
    requires
        phase02_post(gh, uri, headers, r),
    ensures
        r is None,
{
    if phase02_applicable(uri, headers) {
        let res = choose|res: Result<Seq<char>, Seq<char>>|
            gh.verify_post(headers, res) && r == (match res {
                Ok(t) => Some(phase02_decision_view(t)),
                Err(_) => None::<DecisionV>,
            });
        assert(res is Err);
    }
}

} // verus!
