//! The header fields of an inbound request, looked up without regard to
//! ASCII case.

use vstd::prelude::*;
use vstd::slice::slice_to_vec;
use vstd::string::StringSliceAdditionalSpecFns;

verus! {

/// The header fields of one inbound request, in the order they arrived.
///
/// A name is looked up without regard to ASCII case, and where a name occurs
/// more than once the first field is the one found.
pub struct Headers {
    fields: Vec<(Vec<u8>, Vec<u8>)>,
}

/// `b` with an ASCII capital letter replaced by its small letter.
pub open spec fn ascii_lower(b: u8) -> u8 {
    if 0x41 <= b <= 0x5a {
        (b + 0x20) as u8
    } else {
        b
    }
}

/// Two header names are the same when they agree byte for byte once ASCII
/// capitals are folded to small letters.
pub open spec fn same_name(a: Seq<u8>, b: Seq<u8>) -> bool {
    &&& a.len() == b.len()
    &&& forall|i: int| 0 <= i < a.len() ==> ascii_lower(#[trigger] a[i]) == ascii_lower(b[i])
}

/// The value of the first field of `fields` named `name`, if there is one.
pub open spec fn header_value(fields: Seq<(Seq<u8>, Seq<u8>)>, name: Seq<u8>) -> Option<Seq<u8>>
    decreases fields.len(),
{
    if fields.len() == 0 {
        None
    } else if same_name(fields[0].0, name) {
        Some(fields[0].1)
    } else {
        header_value(fields.drop_first(), name)
    }
}

/// A lookup that passes over a prefix of fields with other names finds what
/// the rest of the fields hold.
proof fn lemma_header_value_skip(fields: Seq<(Seq<u8>, Seq<u8>)>, name: Seq<u8>, n: int)
    requires
        0 <= n <= fields.len(),
        forall|i: int| 0 <= i < n ==> !same_name(#[trigger] fields[i].0, name),
    ensures
        header_value(fields, name) == header_value(fields.skip(n), name),
    decreases n,
{
    if n == 0 {
        assert(fields.skip(0) == fields);
    } else {
        assert(!same_name(fields[0].0, name));
        let rest = fields.drop_first();
        assert forall|i: int| 0 <= i < n - 1 implies !same_name(#[trigger] rest[i].0, name) by {
            assert(rest[i] == fields[i + 1]);
        }
        lemma_header_value_skip(rest, name, n - 1);
        assert(rest.skip(n - 1) == fields.skip(n));
    }
}

/// Lookup does not tell apart two names that differ only in the case of
/// their ASCII letters.
pub proof fn header_value_ignores_case(fields: Seq<(Seq<u8>, Seq<u8>)>, a: Seq<u8>, b: Seq<u8>)
    requires
        same_name(a, b),
    ensures
        header_value(fields, a) == header_value(fields, b),
    decreases fields.len(),
{
    if fields.len() > 0 {
        let held = fields[0].0;
        assert(same_name(held, a) == same_name(held, b)) by {
            if held.len() == a.len() {
                assert forall|i: int| 0 <= i < held.len() implies (ascii_lower(held[i])
                    == ascii_lower(a[i])) == (ascii_lower(held[i]) == ascii_lower(b[i])) by {
                    assert(ascii_lower(a[i]) == ascii_lower(b[i]));
                }
            }
        }
        header_value_ignores_case(fields.drop_first(), a, b);
    }
}

fn fold_case(b: u8) -> (folded: u8)
    ensures
        folded == ascii_lower(b),
{
    if 0x41 <= b && b <= 0x5a {
        b + 0x20
    } else {
        b
    }
}

fn names_match(a: &[u8], b: &[u8]) -> (same: bool)
    ensures
        same == same_name(a@, b@),
{
    if a.len() != b.len() {
        return false;
    }
    let mut i: usize = 0;
    while i < a.len()
        invariant
            a@.len() == b@.len(),
            i <= a@.len(),
            forall|j: int| 0 <= j < i ==> ascii_lower(#[trigger] a@[j]) == ascii_lower(b@[j]),
        decreases a@.len() - i,
    {
        if fold_case(a[i]) != fold_case(b[i]) {
            return false;
        }
        i += 1;
    }
    true
}

impl View for Headers {
    type V = Seq<(Seq<u8>, Seq<u8>)>;

    closed spec fn view(&self) -> Seq<(Seq<u8>, Seq<u8>)> {
        self.fields@.map_values(|f: (Vec<u8>, Vec<u8>)| (f.0@, f.1@))
    }
}

impl Headers {
    /// No header fields.
    pub fn new() -> (headers: Headers)
        ensures
            headers@.len() == 0,
    {
        Headers { fields: Vec::new() }
    }

    /// Adds a field after those already held.
    pub fn append(&mut self, name: &str, value: &[u8])
        ensures
            final(self)@ == old(self)@.push((name.spec_bytes(), value@)),
    {
        let name_bytes = slice_to_vec(name.as_bytes());
        let value_bytes = slice_to_vec(value);
        self.fields.push((name_bytes, value_bytes));
        assert(self@ =~= old(self)@.push((name.spec_bytes(), value@)));
    }

    /// The value of the first field named `name`, ASCII case aside.
    pub fn get(&self, name: &str) -> (found: Option<&[u8]>)
        ensures
            match found {
                Some(value) => header_value(self@, name.spec_bytes()) == Some(value@),
                None => header_value(self@, name.spec_bytes()) is None,
            },
    {
        let wanted = name.as_bytes();
        let mut i: usize = 0;
        while i < self.fields.len()
            invariant
                i <= self.fields@.len(),
                wanted@ == name.spec_bytes(),
                forall|j: int| 0 <= j < i ==> !same_name(#[trigger] self@[j].0, wanted@),
            decreases self.fields@.len() - i,
        {
            if names_match(self.fields[i].0.as_slice(), wanted) {
                proof {
                    lemma_header_value_skip(self@, wanted@, i as int);
                }
                return Some(self.fields[i].1.as_slice());
            }
            i += 1;
        }
        proof {
            lemma_header_value_skip(self@, wanted@, i as int);
            assert(self@.skip(i as int).len() == 0);
        }
        None
    }
}

} // verus!
