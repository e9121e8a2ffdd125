//! Raw and normalized request views, and the normalization step that turns
//! one into the other: host resolution and cookie-header parsing. Body
//! decoding beyond byte storage is the business of downstream collaborators;
//! a parse depth of zero means the body is not to be parsed at all.
use vstd::prelude::*;
use crate::requestfields::{spec_get_ci, RequestField};
use crate::strutil::{find_char, lemma_find_char, find_in_str, spec_trim, trim_spaces};

verus! {

/// Request line data supplied by the host alongside the headers.
#[derive(Debug)]
pub struct RequestMeta {
    /// Authority (host) taken from the request line, when present.
    pub authority: Option<String>,
    pub method: String,
    pub path: String,
    pub protocol: String,
}

/// Unparsed inbound request, exactly as the host hands it over.
#[derive(Debug)]
pub struct RawRequest {
    pub ipstr: String,
    pub headers: RequestField,
    pub mbody: Option<Vec<u8>>,
    pub meta: RequestMeta,
}

pub open spec fn opt_bytes_view(b: Option<Vec<u8>>) -> Option<Seq<u8>> {
    match b {
        None => None,
        Some(v) => Some(v@),
    }
}

/// The host a raw request addresses: the request-line authority when
/// present, else the host header, else empty.
pub open spec fn spec_host(raw: RawRequest) -> Seq<char> {
    match raw.meta.authority {
        Some(a) => a@,
        None => match spec_get_ci(raw.headers@, "host"@) {
            Some(h) => h,
            None => Seq::<char>::empty(),
        },
    }
}

impl RawRequest {
    pub fn get_host(&self) -> (r: String)
        ensures
            r@ == spec_host(*self),
    {
        match &self.meta.authority {
            Some(a) => a.clone(),
            None => match self.headers.get("host") {
                Some(h) => h,
                None => String::new(),
            },
        }
    }
}

/// Cookie-header text cut at every semicolon.
pub open spec fn split_at_semis(s: Seq<char>) -> Seq<Seq<char>>
    decreases s.len(),
{
    let k = find_char(s, ';');
    if 0 <= k < s.len() {
        seq![s.take(k)] + split_at_semis(s.skip(k + 1))
    } else {
        seq![s]
    }
}

/// One `name=value` cookie out of one trimmed piece; a piece without `=`
/// yields nothing. The value is everything after the first `=`.
pub open spec fn cookie_field(piece: Seq<char>) -> Option<(Seq<char>, Seq<char>)> {
    let t = spec_trim(piece);
    let k = find_char(t, '=');
    if 0 <= k < t.len() {
        Some((t.take(k), t.skip(k + 1)))
    } else {
        None
    }
}

/// The fields obtained from a list of pieces, in order.
pub open spec fn fields_of(pieces: Seq<Seq<char>>) -> Seq<(Seq<char>, Seq<char>)>
    decreases pieces.len(),
{
    if pieces.len() == 0 {
        Seq::<(Seq<char>, Seq<char>)>::empty()
    } else {
        (match cookie_field(pieces.first()) {
            Some(f) => seq![f],
            None => Seq::<(Seq<char>, Seq<char>)>::empty(),
        }) + fields_of(pieces.drop_first())
    }
}

/// Cookies parsed from one cookie-header value.
pub open spec fn spec_cookies(s: Seq<char>) -> Seq<(Seq<char>, Seq<char>)> {
    fields_of(split_at_semis(s))
}

/// Cookies of a request: parsed from its cookie header, when it has one.
pub open spec fn spec_cookies_of(headers: Seq<(Seq<char>, Seq<char>)>) -> Seq<
    (Seq<char>, Seq<char>),
> {
    match spec_get_ci(headers, "cookie"@) {
        Some(c) => spec_cookies(c),
        None => Seq::<(Seq<char>, Seq<char>)>::empty(),
    }
}

fn split_semis(s: &str) -> (r: Vec<String>)
    ensures
        crate::interface::strings_view(r@) == split_at_semis(s@),
    decreases s@.len(),
{
    let n = s.unicode_len();
    proof {
        lemma_find_char(s@, ';');
    }
    match find_in_str(s, ';') {
        None => {
            let mut r: Vec<String> = Vec::new();
            r.push(s.to_owned());
            proof {
                assert(crate::interface::strings_view(r@) =~= split_at_semis(s@));
            }
            r
        },
        Some(k) => {
            let head = s.substring_char(0, k).to_owned();
            let tail = s.substring_char(k + 1, n);
            let mut rest = split_semis(tail);
            let mut r: Vec<String> = Vec::new();
            r.push(head);
            r.append(&mut rest);
            proof {
                assert(tail@ =~= s@.skip(k as int + 1));
                assert(crate::interface::strings_view(r@) =~= split_at_semis(s@));
            }
            r
        },
    }
}

fn cookie_field_exec(piece: &str) -> (r: Option<(String, String)>)
    ensures
        match r {
            Some(f) => cookie_field(piece@) == Some((f.0@, f.1@)),
            None => cookie_field(piece@) is None,
        },
{
    let t = trim_spaces(piece);
    let ts = t.as_str();
    let n = ts.unicode_len();
    proof {
        lemma_find_char(t@, '=');
    }
    match find_in_str(ts, '=') {
        None => None,
        Some(k) => {
            let name = ts.substring_char(0, k).to_owned();
            let value = ts.substring_char(k + 1, n).to_owned();
            proof {
                assert(name@ =~= spec_trim(piece@).take(k as int));
                assert(value@ =~= spec_trim(piece@).skip(k as int + 1));
            }
            Some((name, value))
        },
    }
}

/// Parse one cookie-header value into ordered cookie fields.
pub fn parse_cookies(s: &str) -> (r: RequestField)
    ensures
        r@ == spec_cookies(s@),
{
    let pieces = split_semis(s);
    let n = pieces.len();
    let ghost pv = crate::interface::strings_view(pieces@);
    let mut r = RequestField::new();
    let mut i: usize = 0;
    proof {
        assert(pv.skip(0) =~= pv);
        assert(fields_of(pv) =~= Seq::<(Seq<char>, Seq<char>)>::empty() + fields_of(pv));
    }
    while i < n
        invariant
            0 <= i <= n,
            n == pieces.len(),
            pv == crate::interface::strings_view(pieces@),
            fields_of(pv) == r@ + fields_of(pv.skip(i as int)),
        decreases n - i,
    {
        proof {
            assert(pv.skip(i as int).first() == pv[i as int]);
            assert(pv.skip(i as int).drop_first() =~= pv.skip(i as int + 1));
        }
        match cookie_field_exec(pieces[i].as_str()) {
            Some(f) => {
                let ghost old_r = r@;
                r.add(f.0, f.1);
                proof {
                    assert(fields_of(pv) =~= r@ + fields_of(pv.skip(i as int + 1)));
                }
            },
            None => {
                proof {
                    assert(fields_of(pv) =~= r@ + fields_of(pv.skip(i as int + 1)));
                }
            },
        }
        i += 1;
    }
    proof {
        assert(pv.skip(n as int) =~= Seq::<Seq<char>>::empty());
        assert(r@ =~= fields_of(pv));
    }
    r
}

/// Normalized request view: produced once per request after the size gate,
/// read-only afterwards.
#[derive(Debug)]
pub struct RequestInfo {
    pub host: String,
    pub path: String,
    pub ip: String,
    pub protocol: String,
    pub headers: RequestField,
    pub cookies: RequestField,
    pub mbody: Option<Vec<u8>>,
    /// The parse depth the body was (or would have been) decoded with;
    /// zero means the body was deliberately left unparsed.
    pub body_depth: usize,
}

/// All the facts `map_request` promises about its result.
pub open spec fn maps_request(r: RequestInfo, raw: RawRequest, max_depth: usize) -> bool {
    &&& r.host@ == spec_host(raw)
    &&& r.path@ == raw.meta.path@
    &&& r.ip@ == raw.ipstr@
    &&& r.protocol@ == raw.meta.protocol@
    &&& r.headers@ == raw.headers@
    &&& r.cookies@ == spec_cookies_of(raw.headers@)
    &&& opt_bytes_view(r.mbody) == opt_bytes_view(raw.mbody)
    &&& r.body_depth == max_depth
}

/// Normalize a raw request: resolve the host, copy the fields, parse the
/// cookie header. The body bytes are carried along unparsed; `max_depth`
/// only records how deeply a downstream decoder may parse them, with zero
/// meaning not at all.
pub fn map_request(max_depth: usize, raw: &RawRequest) -> (r: RequestInfo)
    ensures
        maps_request(r, *raw, max_depth),
{
    let host = raw.get_host();
    let cookies = match raw.headers.get("cookie") {
        Some(c) => parse_cookies(c.as_str()),
        None => RequestField::new(),
    };
    let mbody = match &raw.mbody {
        Some(b) => Some(vstd::slice::slice_to_vec(b.as_slice())),
        None => None,
    };
    RequestInfo {
        host,
        path: raw.meta.path.clone(),
        ip: raw.ipstr.clone(),
        protocol: raw.meta.protocol.clone(),
        headers: raw.headers.duplicate(),
        cookies,
        mbody,
        body_depth: max_depth,
    }
}

/// Whether two request views carry the same data, view for view.
pub open spec fn rinfo_matches(a: &RequestInfo, b: &RequestInfo) -> bool {
    &&& a.host@ == b.host@
    &&& a.path@ == b.path@
    &&& a.ip@ == b.ip@
    &&& a.protocol@ == b.protocol@
    &&& a.headers@ == b.headers@
    &&& a.cookies@ == b.cookies@
    &&& opt_bytes_view(a.mbody) == opt_bytes_view(b.mbody)
    &&& a.body_depth == b.body_depth
}

impl RequestInfo {
    /// Deep copy.
    pub fn duplicate(&self) -> (r: RequestInfo)
        ensures
            rinfo_matches(&r, self),
    {
        let mbody = match &self.mbody {
            Some(b) => Some(vstd::slice::slice_to_vec(b.as_slice())),
            None => None,
        };
        RequestInfo {
            host: self.host.clone(),
            path: self.path.clone(),
            ip: self.ip.clone(),
            protocol: self.protocol.clone(),
            headers: self.headers.duplicate(),
            cookies: self.cookies.duplicate(),
            mbody,
            body_depth: self.body_depth,
        }
    }
}

/// Designated header prefix carrying a phase-02 proof token.
pub open spec fn spec_zebra(headers: Seq<(Seq<char>, Seq<char>)>) -> Option<Seq<char>>
    decreases headers.len(),
{
    if headers.len() == 0 {
        None
    } else if crate::strutil::spec_starts_with(headers.first().0, "x-zebra-"@) {
        Some(headers.first().1)
    } else {
        spec_zebra(headers.drop_first())
    }
}

/// Value of the first header whose name starts with the designated
/// proof-token prefix.
pub fn extract_zebra(headers: &RequestField) -> (r: Option<String>)
    ensures
        match r {
            Some(v) => spec_zebra(headers@) == Some(v@),
            None => spec_zebra(headers@) is None,
        },
{
    let n = headers.fields.len();
    let mut i: usize = 0;
    proof {
        assert(headers@.skip(0) =~= headers@);
    }
    while i < n
        invariant
            0 <= i <= n,
            n == headers.fields.len(),
            spec_zebra(headers@) == spec_zebra(headers@.skip(i as int)),
        decreases n - i,
    {
        proof {
            assert(headers@.skip(i as int).first() == headers@[i as int]);
            assert(headers@.skip(i as int).drop_first() =~= headers@.skip(i as int + 1));
        }
        let entry = &headers.fields[i];
        if crate::strutil::starts_with_str(entry.0.as_str(), "x-zebra-") {
            return Some(entry.1.clone());
        }
        i += 1;
    }
    proof {
        assert(headers@.skip(n as int) =~= Seq::<(Seq<char>, Seq<char>)>::empty());
    }
    None
}

} // verus!
