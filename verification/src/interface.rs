//! Decision model: the shared vocabulary produced and consumed by the
//! inspection pipeline — block reasons, actions, decisions, tags and the
//! final analysis result handed back to the host.
use vstd::prelude::*;

verus! {

/// Provenance of a tag: which part of the request it was derived from.
#[derive(Debug, Clone, Copy, PartialEq, Eq, Structural)]
pub enum Location {
    Request,
    Uri,
    Headers,
    Cookies,
    Body,
}

/// One cause contributing to a block decision.
#[derive(Debug)]
pub enum BlockReason {
    /// An unclassified failure while issuing a phase-01 challenge.
    Phase01Unknown { explanation: String },
    /// A phase-02 challenge verification took place.
    Phase02,
    /// The request body exceeded the policy's configured maximum.
    BodyTooLarge { allowed: usize, actual: usize },
}

/// Ghost encoding of a block reason: a discriminant, the explanation text,
/// and the two sizes (zero where the variant has none).
pub type ReasonV = (int, Seq<char>, int, int);

/// Ghost encoding of an action.
pub type ActionV = (
    ActionType,
    bool,
    Option<Seq<(Seq<char>, Seq<char>)>>,
    int,
    Seq<char>,
    Option<Seq<Seq<char>>>,
);

/// Ghost encoding of a decision: its action, when any, and its reasons.
pub type DecisionV = (Option<ActionV>, Seq<ReasonV>);

/// Ghost encoding of a block reason, used by contracts: a discriminant, the
/// explanation text, and the two sizes (zero where the variant has none).
pub open spec fn reason_view(r: BlockReason) -> (int, Seq<char>, int, int) {
    match r {
        BlockReason::Phase01Unknown { explanation } => (0int, explanation@, 0int, 0int),
        BlockReason::Phase02 => (1int, Seq::<char>::empty(), 0int, 0int),
        BlockReason::BodyTooLarge { allowed, actual } => (
            2int,
            Seq::<char>::empty(),
            allowed as int,
            actual as int,
        ),
    }
}

pub open spec fn reasons_view(rs: Seq<BlockReason>) -> Seq<(int, Seq<char>, int, int)> {
    rs.map_values(|r: BlockReason| reason_view(r))
}

impl BlockReason {
    /// The reason attached to the fail-closed internal-error decision.
    pub fn phase01_unknown(explanation: &str) -> (r: BlockReason)
        ensures
            reason_view(r) == (0int, explanation@, 0int, 0int),
    {
        BlockReason::Phase01Unknown { explanation: explanation.to_owned() }
    }

    pub fn phase02() -> (r: BlockReason)
        ensures
            reason_view(r) == (1int, Seq::<char>::empty(), 0int, 0int),
    {
        BlockReason::Phase02
    }

    pub fn body_too_large_reason(allowed: usize, actual: usize) -> (r: BlockReason)
        ensures
            reason_view(r) == (2int, Seq::<char>::empty(), allowed as int, actual as int),
    {
        BlockReason::BodyTooLarge { allowed, actual }
    }

    pub fn duplicate(&self) -> (r: BlockReason)
        ensures
            reason_view(r) == reason_view(*self),
    {
        match self {
            BlockReason::Phase01Unknown { explanation } => BlockReason::Phase01Unknown {
                explanation: explanation.clone(),
            },
            BlockReason::Phase02 => BlockReason::Phase02,
            BlockReason::BodyTooLarge { allowed, actual } => BlockReason::BodyTooLarge {
                allowed: *allowed,
                actual: *actual,
            },
        }
    }
}

/// Whether the action passes the request on or blocks it.
#[derive(Debug, Clone, Copy, PartialEq, Eq, Structural)]
pub enum ActionType {
    Pass,
    Block,
}

/// The concrete response to send for a decision.
#[derive(Debug)]
pub struct Action {
    pub atype: ActionType,
    pub block_mode: bool,
    pub headers: Option<Vec<(String, String)>>,
    pub status: u32,
    pub content: String,
    pub extra_tags: Option<Vec<String>>,
}

/// Ghost view of a list of string pairs (headers, fields).
pub open spec fn pairs_view(v: Seq<(String, String)>) -> Seq<(Seq<char>, Seq<char>)> {
    v.map_values(|p: (String, String)| (p.0@, p.1@))
}

pub open spec fn strings_view(v: Seq<String>) -> Seq<Seq<char>> {
    v.map_values(|s: String| s@)
}

pub open spec fn opt_pairs_view(v: Option<Vec<(String, String)>>) -> Option<
    Seq<(Seq<char>, Seq<char>)>,
> {
    match v {
        None => None,
        Some(h) => Some(pairs_view(h@)),
    }
}

pub open spec fn opt_strings_view(v: Option<Vec<String>>) -> Option<Seq<Seq<char>>> {
    match v {
        None => None,
        Some(h) => Some(strings_view(h@)),
    }
}

/// Ghost encoding of an action, used by contracts.
pub open spec fn action_view(a: Action) -> (
    ActionType,
    bool,
    Option<Seq<(Seq<char>, Seq<char>)>>,
    int,
    Seq<char>,
    Option<Seq<Seq<char>>>,
) {
    (
        a.atype,
        a.block_mode,
        opt_pairs_view(a.headers),
        a.status as int,
        a.content@,
        opt_strings_view(a.extra_tags),
    )
}

/// Final verdict for one request: at most one action, plus the ordered
/// reasons that contributed to it. A decision without an action passes the
/// request on unchanged.
#[derive(Debug)]
pub struct Decision {
    pub maction: Option<Action>,
    pub reasons: Vec<BlockReason>,
}

pub open spec fn decision_view(d: Decision) -> (
    Option<(ActionType, bool, Option<Seq<(Seq<char>, Seq<char>)>>, int, Seq<char>, Option<Seq<Seq<char>>>)>,
    Seq<(int, Seq<char>, int, int)>,
) {
    (
        match d.maction {
            None => None,
            Some(a) => Some(action_view(a)),
        },
        reasons_view(d.reasons@),
    )
}

pub open spec fn opt_decision_view(d: Option<Decision>) -> Option<DecisionV> {
    match d {
        None => None,
        Some(dd) => Some(decision_view(dd)),
    }
}

impl Decision {
    /// A pass decision: no action is taken, the request goes through.
    pub fn pass(reasons: Vec<BlockReason>) -> (r: Decision)
        ensures
            r.maction is None,
            reasons_view(r.reasons@) == reasons_view(reasons@),
    {
        Decision { maction: None, reasons }
    }

    /// A decision carrying a concrete action.
    pub fn action(action: Action, reasons: Vec<BlockReason>) -> (r: Decision)
        ensures
            r.maction is Some,
            action_view(r.maction->Some_0) == action_view(action),
            reasons_view(r.reasons@) == reasons_view(reasons@),
    {
        Decision { maction: Some(action), reasons }
    }

    /// Whether this decision lets the request through.
    pub fn is_pass(&self) -> (r: bool)
        ensures
            r == (self.maction is None),
    {
        self.maction.is_none()
    }
}

/// Set of request annotations with provenance. Insertion keeps the first
/// location recorded for a name; a tag, once present, is never removed.
#[derive(Debug)]
pub struct Tags {
    pub entries: Vec<TagEntry>,
}

#[derive(Debug)]
pub struct TagEntry {
    pub name: String,
    pub loc: Location,
}

impl View for Tags {
    type V = Seq<(Seq<char>, Location)>;

    open spec fn view(&self) -> Seq<(Seq<char>, Location)> {
        self.entries@.map_values(|e: TagEntry| (e.name@, e.loc))
    }
}

/// Whether a tag list holds the given name.
pub open spec fn tags_has(t: Seq<(Seq<char>, Location)>, name: Seq<char>) -> bool {
    exists|i: int| 0 <= i < t.len() && (#[trigger] t[i]).0 == name
}

/// Ghost effect of inserting one tag: a no-op when the name is present.
pub open spec fn tags_insert(
    t: Seq<(Seq<char>, Location)>,
    name: Seq<char>,
    loc: Location,
) -> Seq<(Seq<char>, Location)> {
    if tags_has(t, name) {
        t
    } else {
        t.push((name, loc))
    }
}

/// Ghost effect of merging a second tag list, entry by entry, in order.
pub open spec fn tags_merge(
    t: Seq<(Seq<char>, Location)>,
    o: Seq<(Seq<char>, Location)>,
) -> Seq<(Seq<char>, Location)>
    decreases o.len(),
{
    if o.len() == 0 {
        t
    } else {
        tags_merge(tags_insert(t, o.first().0, o.first().1), o.drop_first())
    }
}

/// A tag present before an insertion is present after it.
pub proof fn lemma_tags_insert_keeps(
    t: Seq<(Seq<char>, Location)>,
    name: Seq<char>,
    loc: Location,
    n: Seq<char>,
)
    requires
        tags_has(t, n),
    ensures
        tags_has(tags_insert(t, name, loc), n),
{
    if !tags_has(t, name) {
        let i = choose|i: int| 0 <= i < t.len() && (#[trigger] t[i]).0 == n;
        assert(t.push((name, loc))[i].0 == n);
    }
}

/// A tag present before a merge is present after it: merging never removes
/// a tag, so the reserved "all" tag survives every tagging stage.
pub proof fn lemma_tags_merge_keeps(
    t: Seq<(Seq<char>, Location)>,
    o: Seq<(Seq<char>, Location)>,
    n: Seq<char>,
)
    requires
        tags_has(t, n),
    ensures
        tags_has(tags_merge(t, o), n),
    decreases o.len(),
{
    if o.len() != 0 {
        lemma_tags_insert_keeps(t, o.first().0, o.first().1, n);
        lemma_tags_merge_keeps(tags_insert(t, o.first().0, o.first().1), o.drop_first(), n);
    }
}

impl Tags {
    pub fn new() -> (r: Tags)
        ensures
            r@ == Seq::<(Seq<char>, Location)>::empty(),
    {
        Tags { entries: Vec::new() }
    }

    /// Whether a tag of that exact name is present.
    pub fn contains(&self, name: &str) -> (r: bool)
        ensures
            r == tags_has(self@, name@),
    {
        let n = self.entries.len();
        let mut i: usize = 0;
        while i < n
            invariant
                0 <= i <= n,
                n == self.entries.len(),
                forall|j: int| 0 <= j < i ==> (#[trigger] self@[j]).0 != name@,
            decreases n - i,
        {
            if crate::strutil::str_eq(self.entries[i].name.as_str(), name) {
                assert(self@[i as int].0 == name@);
                return true;
            }
            i += 1;
        }
        false
    }

    /// Insert a tag; a name already present keeps its original location.
    pub fn insert(&mut self, name: &str, loc: Location)
        ensures
            final(self)@ == tags_insert(old(self)@, name@, loc),
    {
        if !self.contains(name) {
            self.entries.push(TagEntry { name: name.to_owned(), loc });
            assert(self@ =~= old(self)@.push((name@, loc)));
        }
    }

    /// Merge another tag list into this one, entry by entry, in order.
    pub fn extend(&mut self, other: Tags)
        ensures
            final(self)@ == tags_merge(old(self)@, other@),
    {
        let n = other.entries.len();
        let mut i: usize = 0;
        proof {
            assert(other@.skip(0) =~= other@);
        }
        while i < n
            invariant
                0 <= i <= n,
                n == other.entries.len(),
                tags_merge(old(self)@, other@) == tags_merge(self@, other@.skip(i as int)),
            decreases n - i,
        {
            let e = &other.entries[i];
            assert(other@.skip(i as int).first() == other@[i as int]);
            assert(other@.skip(i as int).drop_first() =~= other@.skip(i as int + 1));
            self.insert(e.name.as_str(), e.loc);
            i += 1;
        }
        assert(other@.skip(n as int) =~= Seq::<(Seq<char>, Location)>::empty());
    }
}

/// Deep copy of a list of string pairs.
pub fn clone_pairs(v: &Vec<(String, String)>) -> (r: Vec<(String, String)>)
    ensures
        pairs_view(r@) == pairs_view(v@),
{
    let n = v.len();
    let mut out: Vec<(String, String)> = Vec::new();
    let mut i: usize = 0;
    while i < n
        invariant
            0 <= i <= n,
            n == v.len(),
            out@.len() == i,
            forall|j: int|
                0 <= j < i ==> (#[trigger] out@[j]).0@ == v@[j].0@ && out@[j].1@ == v@[j].1@,
        decreases n - i,
    {
        let entry = &v[i];
        out.push((entry.0.clone(), entry.1.clone()));
        i += 1;
    }
    proof {
        assert(pairs_view(out@) =~= pairs_view(v@));
    }
    out
}

/// Deep copy of a list of strings.
pub fn clone_strings(v: &Vec<String>) -> (r: Vec<String>)
    ensures
        strings_view(r@) == strings_view(v@),
{
    let n = v.len();
    let mut out: Vec<String> = Vec::new();
    let mut i: usize = 0;
    while i < n
        invariant
            0 <= i <= n,
            n == v.len(),
            out@.len() == i,
            forall|j: int| 0 <= j < i ==> (#[trigger] out@[j])@ == v@[j]@,
        decreases n - i,
    {
        out.push(v[i].clone());
        i += 1;
    }
    proof {
        assert(strings_view(out@) =~= strings_view(v@));
    }
    out
}

impl Action {
    /// Deep copy.
    pub fn duplicate(&self) -> (r: Action)
        ensures
            action_view(r) == action_view(*self),
    {
        let headers = match &self.headers {
            Some(h) => Some(clone_pairs(h)),
            None => None,
        };
        let extra_tags = match &self.extra_tags {
            Some(t) => Some(clone_strings(t)),
            None => None,
        };
        Action {
            atype: self.atype,
            block_mode: self.block_mode,
            headers,
            status: self.status,
            content: self.content.clone(),
            extra_tags,
        }
    }
}

impl Decision {
    /// Deep copy.
    pub fn duplicate(&self) -> (r: Decision)
        ensures
            decision_view(r) == decision_view(*self),
    {
        let maction = match &self.maction {
            Some(a) => Some(a.duplicate()),
            None => None,
        };
        let n = self.reasons.len();
        let mut reasons: Vec<BlockReason> = Vec::new();
        let mut i: usize = 0;
        while i < n
            invariant
                0 <= i <= n,
                n == self.reasons.len(),
                reasons@.len() == i,
                forall|j: int|
                    0 <= j < i ==> reason_view(#[trigger] reasons@[j]) == reason_view(
                        self.reasons@[j],
                    ),
            decreases n - i,
        {
            reasons.push(self.reasons[i].duplicate());
            i += 1;
        }
        let r = Decision { maction, reasons };
        proof {
            assert(reasons_view(r.reasons@) =~= reasons_view(self.reasons@));
        }
        r
    }
}

impl Tags {
    /// Deep copy.
    pub fn duplicate(&self) -> (r: Tags)
        ensures
            r@ == self@,
    {
        let n = self.entries.len();
        let mut entries: Vec<TagEntry> = Vec::new();
        let mut i: usize = 0;
        while i < n
            invariant
                0 <= i <= n,
                n == self.entries.len(),
                entries@.len() == i,
                forall|j: int|
                    0 <= j < i ==> (#[trigger] entries@[j]).name@ == self.entries@[j].name@
                        && entries@[j].loc == self.entries@[j].loc,
            decreases n - i,
        {
            let e = &self.entries[i];
            entries.push(TagEntry { name: e.name.clone(), loc: e.loc });
            i += 1;
        }
        let r = Tags { entries };
        proof {
            assert(r@ =~= self@);
        }
        r
    }
}

/// Telemetry carried alongside a decision.
#[derive(Debug)]
pub struct Stats {
    pub revision: String,
    pub processing_stage: usize,
}

impl Stats {
    pub fn new_default() -> (r: Stats)
        ensures
            r.revision@ == Seq::<char>::empty(),
            r.processing_stage == 0,
    {
        Stats { revision: String::new(), processing_stage: 0 }
    }

    pub fn at_stage(revision: &String, stage: usize) -> (r: Stats)
        ensures
            r.revision@ == revision@,
            r.processing_stage == stage,
    {
        Stats { revision: revision.clone(), processing_stage: stage }
    }
}

impl Stats {
    /// Copy.
    pub fn duplicate(&self) -> (r: Stats)
        ensures
            r.revision@ == self.revision@,
            r.processing_stage == self.processing_stage,
    {
        Stats { revision: self.revision.clone(), processing_stage: self.processing_stage }
    }
}

/// Full response to the host: every path through the pipeline, including
/// the early-exit ones, yields a value of this shape.
#[derive(Debug)]
pub struct AnalyzeResult {
    pub decision: Decision,
    pub tags: Tags,
    pub rinfo: crate::utils::RequestInfo,
    pub stats: Stats,
}

/// Whether two analysis results carry the same data, view for view.
pub open spec fn result_matches(a: &AnalyzeResult, b: &AnalyzeResult) -> bool {
    &&& decision_view(a.decision) == decision_view(b.decision)
    &&& a.tags@ == b.tags@
    &&& crate::utils::rinfo_matches(&a.rinfo, &b.rinfo)
    &&& a.stats.revision@ == b.stats.revision@
    &&& a.stats.processing_stage == b.stats.processing_stage
}

impl AnalyzeResult {
    /// Deep copy.
    pub fn duplicate(&self) -> (r: AnalyzeResult)
        ensures
            result_matches(&r, self),
    {
        AnalyzeResult {
            decision: self.decision.duplicate(),
            tags: self.tags.duplicate(),
            rinfo: self.rinfo.duplicate(),
            stats: self.stats.duplicate(),
        }
    }
}

/// The block action and reason for a request body over the size limit.
pub fn body_too_large(allowed: usize, actual: usize) -> (r: (Action, BlockReason))
    ensures
        action_view(r.0) == (
            ActionType::Block,
            true,
            None::<Seq<(Seq<char>, Seq<char>)>>,
            403int,
            "request body too large"@,
            None::<Seq<Seq<char>>>,
        ),
        reason_view(r.1) == (2int, Seq::<char>::empty(), allowed as int, actual as int),
{
    (
        Action {
            atype: ActionType::Block,
            block_mode: true,
            headers: None,
            status: 403,
            content: "request body too large".to_owned(),
            extra_tags: None,
        },
        BlockReason::body_too_large_reason(allowed, actual),
    )
}

} // verus!
