//! An ordered collection of named request fields (headers, cookies) with
//! ASCII-case-insensitive lookup: the first field whose name matches wins.
use vstd::prelude::*;
use crate::interface::pairs_view;
use crate::strutil::{seq_eq_ci, str_eq_ci};

verus! {

#[derive(Debug)]
pub struct RequestField {
    pub fields: Vec<(String, String)>,
}

impl View for RequestField {
    type V = Seq<(Seq<char>, Seq<char>)>;

    open spec fn view(&self) -> Seq<(Seq<char>, Seq<char>)> {
        pairs_view(self.fields@)
    }
}

/// Value of the first field whose name equals `name` up to ASCII case.
pub open spec fn spec_get_ci(f: Seq<(Seq<char>, Seq<char>)>, name: Seq<char>) -> Option<
    Seq<char>,
>
    decreases f.len(),
{
    if f.len() == 0 {
        None
    } else if seq_eq_ci(f.first().0, name) {
        Some(f.first().1)
    } else {
        spec_get_ci(f.drop_first(), name)
    }
}

impl RequestField {
    pub fn new() -> (r: RequestField)
        ensures
            r@ == Seq::<(Seq<char>, Seq<char>)>::empty(),
    {
        RequestField { fields: Vec::new() }
    }

    /// Append a field; insertion order is preserved.
    pub fn add(&mut self, name: String, value: String)
        ensures
            final(self)@ == old(self)@.push((name@, value@)),
    {
        let ghost nv = name@;
        let ghost vv = value@;
        self.fields.push((name, value));
        proof {
            assert(self@ =~= old(self)@.push((nv, vv)));
        }
    }

    /// Case-insensitive lookup of the first matching field's value.
    pub fn get(&self, name: &str) -> (r: Option<String>)
        ensures
            match r {
                Some(v) => spec_get_ci(self@, name@) == Some(v@),
                None => spec_get_ci(self@, name@) is None,
            },
    {
        let n = self.fields.len();
        let mut i: usize = 0;
        proof {
            assert(self@.skip(0) =~= self@);
        }
        while i < n
            invariant
                0 <= i <= n,
                n == self.fields.len(),
                spec_get_ci(self@, name@) == spec_get_ci(self@.skip(i as int), name@),
            decreases n - i,
        {
            proof {
                assert(self@.skip(i as int).first() == self@[i as int]);
                assert(self@.skip(i as int).drop_first() =~= self@.skip(i as int + 1));
            }
            let entry = &self.fields[i];
            if str_eq_ci(entry.0.as_str(), name) {
                return Some(entry.1.clone());
            }
            i += 1;
        }
        proof {
            assert(self@.skip(n as int) =~= Seq::<(Seq<char>, Seq<char>)>::empty());
        }
        None
    }

    /// Deep copy.
    pub fn duplicate(&self) -> (r: RequestField)
        ensures
            r@ == self@,
    {
        let n = self.fields.len();
        let mut out: Vec<(String, String)> = Vec::new();
        let mut i: usize = 0;
        while i < n
            invariant
                0 <= i <= n,
                n == self.fields.len(),
                out@.len() == i,
                forall|j: int|
                    0 <= j < i ==> (#[trigger] out@[j]).0@ == self.fields@[j].0@ && out@[j].1@
                        == self.fields@[j].1@,
            decreases n - i,
        {
            let entry = &self.fields[i];
            out.push((entry.0.clone(), entry.1.clone()));
            i += 1;
        }
        proof {
            assert(pairs_view(out@) =~= self@);
        }
        RequestField { fields: out }
    }

    /// Number of fields.
    pub fn len(&self) -> (r: usize)
        ensures
            r == self@.len(),
    {
        self.fields.len()
    }
}

} // verus!
