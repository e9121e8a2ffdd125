//! Wire framing for the cross-boundary verification call: the query is
//! serialized to a compact interchange encoding (JSON) of
//! `{headers, cookies, ip, protocol}`. The encoder escapes every control
//! character, so the encoded text never contains a NUL and can always be
//! handed across the boundary as a null-terminated buffer — encoding
//! cannot fail, by construction.
use vstd::prelude::*;
use crate::grasshopper::{query_view, GhQueryV, InputData};
use crate::requestfields::RequestField;

verus! {

/// Hexadecimal digit for one value below sixteen.
pub open spec fn hex_digit(d: int) -> char {
    if d == 0 {
        '0'
    } else if d == 1 {
        '1'
    } else if d == 2 {
        '2'
    } else if d == 3 {
        '3'
    } else if d == 4 {
        '4'
    } else if d == 5 {
        '5'
    } else if d == 6 {
        '6'
    } else if d == 7 {
        '7'
    } else if d == 8 {
        '8'
    } else if d == 9 {
        '9'
    } else if d == 10 {
        'a'
    } else if d == 11 {
        'b'
    } else if d == 12 {
        'c'
    } else if d == 13 {
        'd'
    } else if d == 14 {
        'e'
    } else {
        'f'
    }
}

/// JSON escape of one character: quotes and backslashes are escaped,
/// control characters become `\u00XX`, everything else stands as itself.
pub open spec fn json_escape_char(c: char) -> Seq<char> {
    if c == '"' {
        seq!['\\', '"']
    } else if c == '\\' {
        seq!['\\', '\\']
    } else if (c as u32) < 32 {
        seq!['\\', 'u', '0', '0', hex_digit((c as u32 / 16) as int), hex_digit((c as u32 % 16) as int)]
    } else {
        seq![c]
    }
}

/// JSON escape of a string, character by character.
pub open spec fn json_escape(s: Seq<char>) -> Seq<char>
    decreases s.len(),
{
    if s.len() == 0 {
        Seq::<char>::empty()
    } else {
        json_escape(s.drop_last()) + json_escape_char(s.last())
    }
}

/// A JSON string literal: the escaped text in double quotes.
pub open spec fn json_string(s: Seq<char>) -> Seq<char> {
    seq!['"'] + json_escape(s) + seq!['"']
}

/// One `"name":"value"` member.
pub open spec fn json_member(p: (Seq<char>, Seq<char>)) -> Seq<char> {
    json_string(p.0) + seq![':'] + json_string(p.1)
}

/// The members of an object, comma separated, in order.
pub open spec fn json_fields_body(f: Seq<(Seq<char>, Seq<char>)>) -> Seq<char>
    decreases f.len(),
{
    if f.len() == 0 {
        Seq::<char>::empty()
    } else if f.len() == 1 {
        json_member(f[0])
    } else {
        json_fields_body(f.drop_last()) + seq![','] + json_member(f.last())
    }
}

/// A field list as a JSON object.
pub open spec fn json_fields(f: Seq<(Seq<char>, Seq<char>)>) -> Seq<char> {
    seq!['{'] + json_fields_body(f) + seq!['}']
}

/// The whole query on the wire.
pub open spec fn json_query(q: GhQueryV) -> Seq<char> {
    "{\"headers\":"@ + json_fields(q.0) + ",\"cookies\":"@ + json_fields(q.1) + ",\"ip\":"@
        + json_string(q.2) + ",\"protocol\":"@ + json_string(q.3) + "}"@
}

/// The hexadecimal digit, as a one-character string.
fn hex_digit_str(d: u32) -> (r: &'static str)
    requires
        d < 16,
    ensures
        r@ == seq![hex_digit(d as int)],
{
    proof {
        reveal_strlit("0");
        reveal_strlit("1");
        reveal_strlit("2");
        reveal_strlit("3");
        reveal_strlit("4");
        reveal_strlit("5");
        reveal_strlit("6");
        reveal_strlit("7");
        reveal_strlit("8");
        reveal_strlit("9");
        reveal_strlit("a");
        reveal_strlit("b");
        reveal_strlit("c");
        reveal_strlit("d");
        reveal_strlit("e");
        reveal_strlit("f");
    }
    match d {
        0 => "0",
        1 => "1",
        2 => "2",
        3 => "3",
        4 => "4",
        5 => "5",
        6 => "6",
        7 => "7",
        8 => "8",
        9 => "9",
        10 => "a",
        11 => "b",
        12 => "c",
        13 => "d",
        14 => "e",
        _ => "f",
    }
}

/// Append the JSON escape of `s` to `out`.
fn append_json_escaped(out: &mut String, s: &str)
    ensures
        final(out)@ == old(out)@ + json_escape(s@),
{
    let n = s.unicode_len();
    let mut i: usize = 0;
    proof {
        assert(s@.take(0) =~= Seq::<char>::empty());
        assert(old(out)@ + json_escape(s@.take(0)) =~= old(out)@);
    }
    while i < n
        invariant
            0 <= i <= n,
            n == s@.len(),
            out@ == old(out)@ + json_escape(s@.take(i as int)),
        decreases n - i,
    {
        let c = s.get_char(i);
        let cu: u32 = c as u32;
        if c == '"' {
            proof {
                reveal_strlit("\\\"");
            }
            out.append("\\\"");
        } else if c == '\\' {
            proof {
                reveal_strlit("\\\\");
            }
            out.append("\\\\");
        } else if cu < 32 {
            proof {
                reveal_strlit("\\u00");
            }
            out.append("\\u00");
            out.append(hex_digit_str(cu / 16));
            out.append(hex_digit_str(cu % 16));
        } else {
            let piece = s.substring_char(i, i + 1);
            out.append(piece);
        }
        proof {
            assert(s@.take(i as int + 1).drop_last() =~= s@.take(i as int));
            assert(s@.take(i as int + 1).last() == s@[i as int]);
            assert(out@ =~= old(out)@ + json_escape(s@.take(i as int + 1)));
        }
        i += 1;
    }
    proof {
        assert(s@.take(n as int) =~= s@);
    }
}

/// Append `s` as a JSON string literal to `out`.
fn append_json_string(out: &mut String, s: &str)
    ensures
        final(out)@ == old(out)@ + json_string(s@),
{
    proof {
        reveal_strlit("\"");
    }
    out.append("\"");
    append_json_escaped(out, s);
    out.append("\"");
    proof {
        assert("\""@ =~= seq!['"']);
        assert(final(out)@ =~= old(out)@ + json_string(s@));
    }
}

/// Append a field list as a JSON object to `out`.
fn append_json_fields(out: &mut String, f: &RequestField)
    ensures
        final(out)@ == old(out)@ + json_fields(f@),
{
    proof {
        reveal_strlit("{");
        reveal_strlit("}");
        reveal_strlit(",");
        reveal_strlit(":");
    }
    out.append("{");
    let n = f.fields.len();
    let mut i: usize = 0;
    proof {
        assert(f@.take(0) =~= Seq::<(Seq<char>, Seq<char>)>::empty());
        assert(out@ =~= old(out)@ + seq!['{'] + json_fields_body(f@.take(0)));
    }
    while i < n
        invariant
            0 <= i <= n,
            n == f.fields.len(),
            out@ == old(out)@ + seq!['{'] + json_fields_body(f@.take(i as int)),
        decreases n - i,
    {
        if i > 0 {
            out.append(",");
        }
        let entry = &f.fields[i];
        append_json_string(out, entry.0.as_str());
        out.append(":");
        append_json_string(out, entry.1.as_str());
        proof {
            reveal_strlit(",");
            reveal_strlit(":");
            assert(f@.take(i as int + 1).drop_last() =~= f@.take(i as int));
            assert(f@.take(i as int + 1).last() == f@[i as int]);
            if i == 0 {
                assert(f@.take(1int).len() == 1);
            }
            assert(out@ =~= old(out)@ + seq!['{'] + json_fields_body(f@.take(i as int + 1)));
        }
        i += 1;
    }
    out.append("}");
    proof {
        assert(f@.take(n as int) =~= f@);
        assert(final(out)@ =~= old(out)@ + json_fields(f@));
    }
}

/// Encode the whole verification query for the cross-boundary call.
pub fn encode_query(input: &InputData<'_>) -> (r: String)
    ensures
        r@ == json_query(query_view(*input)),
{
    let mut out = String::new();
    out.append("{\"headers\":");
    append_json_fields(&mut out, input.headers);
    out.append(",\"cookies\":");
    append_json_fields(&mut out, input.cookies);
    out.append(",\"ip\":");
    append_json_string(&mut out, input.ip);
    out.append(",\"protocol\":");
    append_json_string(&mut out, input.protocol);
    out.append("}");
    proof {
        assert(out@ =~= json_query(query_view(*input)));
    }
    out
}

/// Encode a bare field list (the headers of a challenge verification) for
/// the cross-boundary call.
pub fn encode_fields(f: &RequestField) -> (r: String)
    ensures
        r@ == json_fields(f@),
{
    let mut out = String::new();
    append_json_fields(&mut out, f);
    proof {
        assert(out@ =~= json_fields(f@));
    }
    out
}

/// Whether a piece of text is free of NUL characters.
pub open spec fn nul_free(s: Seq<char>) -> bool {
    forall|i: int| 0 <= i < s.len() ==> (#[trigger] s[i]) != '\0'
}

proof fn lemma_nul_free_concat(a: Seq<char>, b: Seq<char>)
    requires
        nul_free(a),
        nul_free(b),
    ensures
        nul_free(a + b),
{
    assert forall|i: int| 0 <= i < (a + b).len() implies (a + b)[i] != '\0' by {
        if i < a.len() {
            assert((a + b)[i] == a[i]);
        } else {
            assert((a + b)[i] == b[i - a.len()]);
        }
    }
}

/// No escaped character contains a NUL.
proof fn lemma_escape_char_no_nul(c: char)
    ensures
        nul_free(json_escape_char(c)),
{
    let e = json_escape_char(c);
    assert forall|i: int| 0 <= i < e.len() implies e[i] != '\0' by {
        if c == '"' || c == '\\' {
        } else if (c as u32) < 32 {
            assert(e[0] == '\\');
            assert(e[1] == 'u');
            assert(e[2] == '0');
            assert(e[3] == '0');
            assert(e[4] == hex_digit((c as u32 / 16) as int));
            assert(e[5] == hex_digit((c as u32 % 16) as int));
            assert(hex_digit((c as u32 / 16) as int) != '\0');
            assert(hex_digit((c as u32 % 16) as int) != '\0');
        } else {
            assert(e[0] == c);
            assert(c as u32 >= 32);
        }
    }
}

/// No escaped string contains a NUL.
proof fn lemma_escape_no_nul(s: Seq<char>)
    ensures
        nul_free(json_escape(s)),
    decreases s.len(),
{
    if s.len() != 0 {
        lemma_escape_no_nul(s.drop_last());
        lemma_escape_char_no_nul(s.last());
        lemma_nul_free_concat(json_escape(s.drop_last()), json_escape_char(s.last()));
    }
}

/// No JSON string literal contains a NUL.
proof fn lemma_string_no_nul(s: Seq<char>)
    ensures
        nul_free(json_string(s)),
{
    lemma_escape_no_nul(s);
    lemma_nul_free_concat(seq!['"'], json_escape(s));
    lemma_nul_free_concat(seq!['"'] + json_escape(s), seq!['"']);
}

proof fn lemma_member_no_nul(p: (Seq<char>, Seq<char>))
    ensures
        nul_free(json_member(p)),
{
    lemma_string_no_nul(p.0);
    lemma_string_no_nul(p.1);
    lemma_nul_free_concat(json_string(p.0), seq![':']);
    lemma_nul_free_concat(json_string(p.0) + seq![':'], json_string(p.1));
}

/// No encoded object contains a NUL.
proof fn lemma_fields_no_nul(f: Seq<(Seq<char>, Seq<char>)>)
    ensures
        nul_free(json_fields_body(f)),
        nul_free(json_fields(f)),
    decreases f.len(),
{
    if f.len() == 1 {
        lemma_member_no_nul(f[0]);
    } else if f.len() > 1 {
        lemma_fields_no_nul(f.drop_last());
        lemma_member_no_nul(f.last());
        lemma_nul_free_concat(json_fields_body(f.drop_last()), seq![',']);
        lemma_nul_free_concat(json_fields_body(f.drop_last()) + seq![','], json_member(f.last()));
    }
    lemma_nul_free_concat(seq!['{'], json_fields_body(f));
    lemma_nul_free_concat(seq!['{'] + json_fields_body(f), seq!['}']);
}

/// The encoded query never contains a NUL character: every control
/// character of every header name, cookie or value is escaped, so the
/// encoding can always cross the boundary as a null-terminated text
/// buffer. Serialization cannot fail.
pub proof fn lemma_query_encoding_no_nul(q: GhQueryV)
    ensures
        nul_free(json_query(q)),
{
    reveal_strlit("{\"headers\":");
    reveal_strlit(",\"cookies\":");
    reveal_strlit(",\"ip\":");
    reveal_strlit(",\"protocol\":");
    reveal_strlit("}");
    lemma_fields_no_nul(q.0);
    lemma_fields_no_nul(q.1);
    lemma_string_no_nul(q.2);
    lemma_string_no_nul(q.3);
    let p1 = "{\"headers\":"@;
    let p2 = ",\"cookies\":"@;
    let p3 = ",\"ip\":"@;
    let p4 = ",\"protocol\":"@;
    let p5 = "}"@;
    assert(nul_free(p1));
    assert(nul_free(p2));
    assert(nul_free(p3));
    assert(nul_free(p4));
    assert(nul_free(p5));
    lemma_nul_free_concat(p1, json_fields(q.0));
    lemma_nul_free_concat(p1 + json_fields(q.0), p2);
    lemma_nul_free_concat(p1 + json_fields(q.0) + p2, json_fields(q.1));
    lemma_nul_free_concat(p1 + json_fields(q.0) + p2 + json_fields(q.1), p3);
    lemma_nul_free_concat(p1 + json_fields(q.0) + p2 + json_fields(q.1) + p3, json_string(q.2));
    lemma_nul_free_concat(
        p1 + json_fields(q.0) + p2 + json_fields(q.1) + p3 + json_string(q.2),
        p4,
    );
    lemma_nul_free_concat(
        p1 + json_fields(q.0) + p2 + json_fields(q.1) + p3 + json_string(q.2) + p4,
        json_string(q.3),
    );
    lemma_nul_free_concat(
        p1 + json_fields(q.0) + p2 + json_fields(q.1) + p3 + json_string(q.2) + p4 + json_string(
            q.3,
        ),
        p5,
    );
}

} // verus!
