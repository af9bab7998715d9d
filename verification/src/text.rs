//! Text primitives shared by the permission grammar and the bearer header:
//! equality of strings, and fields delimited by a separator character.

use vstd::prelude::*;
use vstd::string::StringSliceAdditionalSpecFns;
use vstd::string::StrSliceExecFns;
use vstd::utf8::encode_utf8_decode_utf8;

verus! {

/// Index of the first `sep` in `s`, or `s.len()` when `s` holds none.
pub open spec fn position<T>(s: Seq<T>, sep: T) -> int
    decreases s.len(),
{
    if s.len() == 0 || s[0] == sep {
        0
    } else {
        1 + position(s.drop_first(), sep)
    }
}

/// The field that starts `s`: everything before the first `sep`, or all of
/// `s` when it holds no `sep`.
pub open spec fn before(s: Seq<char>, sep: char) -> Seq<char> {
    s.take(position(s, sep))
}

/// What follows the first `sep` of `s`; `None` when `s` holds no `sep`.
pub open spec fn after(s: Seq<char>, sep: char) -> Option<Seq<char>> {
    if position(s, sep) < s.len() {
        Some(s.skip(position(s, sep) + 1))
    } else {
        None
    }
}

/// `position` is the least index that holds `sep`, and stays within `s`.
pub proof fn lemma_position<T>(s: Seq<T>, sep: T)
    ensures
        0 <= position(s, sep) <= s.len(),
        position(s, sep) < s.len() ==> s[position(s, sep)] == sep,
        forall|k: int| 0 <= k < position(s, sep) ==> s[k] != sep,
    decreases s.len(),
{
    if s.len() == 0 || s[0] == sep {
    } else {
        let rest = s.drop_first();
        lemma_position(rest, sep);
        assert forall|k: int| 0 <= k < position(s, sep) implies s[k] != sep by {
            if k > 0 {
                assert(s[k] == rest[k - 1]);
            }
        }
    }
}

/// Any index with the two properties of `lemma_position` is `position`.
pub proof fn lemma_position_unique<T>(s: Seq<T>, sep: T, p: int)
    requires
        0 <= p <= s.len(),
        p < s.len() ==> s[p] == sep,
        forall|k: int| 0 <= k < p ==> s[k] != sep,
    ensures
        position(s, sep) == p,
{
    lemma_position(s, sep);
}

/// The first field of a stretch `from..limit` of `s`, and what follows it,
/// as stretches of `s`.
pub proof fn lemma_field(s: Seq<char>, from: int, limit: int, sep: char)
    requires
        0 <= from <= limit <= s.len(),
    ensures
        ({
            let part = s.subrange(from, limit);
            let p = position(part, sep);
            &&& 0 <= p <= limit - from
            &&& before(part, sep) == s.subrange(from, from + p)
            &&& after(part, sep) == if p < limit - from {
                Some(s.subrange(from + p + 1, limit))
            } else {
                None
            }
        }),
{
    lemma_position(s.subrange(from, limit), sep);
}

/// Whether two strings hold the same text.
pub fn str_eq(a: &str, b: &str) -> (same: bool)
    ensures
        same == (a@ == b@),
{
    let x = a.as_bytes();
    let y = b.as_bytes();
    proof {
        encode_utf8_decode_utf8(a@);
        encode_utf8_decode_utf8(b@);
    }
    if x.len() != y.len() {
        return false;
    }
    let mut i: usize = 0;
    while i < x.len()
        invariant
            i <= x.len(),
            x.len() == y.len(),
            x@ == a.spec_bytes(),
            y@ == b.spec_bytes(),
            forall|k: int| 0 <= k < i ==> x@[k] == y@[k],
        decreases x.len() - i,
    {
        if x[i] != y[i] {
            return false;
        }
        i += 1;
    }
    assert(x@ =~= y@);
    true
}

/// The characters of a string, in order.
pub fn to_chars(s: &str) -> (v: Vec<char>)
    ensures
        v@ == s@,
{
    let mut v: Vec<char> = Vec::new();
    for c in it: s.chars()
        invariant
            v@ == it.seq().take(it.index() as int),
            it.seq() == s@,
    {
        v.push(c);
    }
    v
}

/// Scans `chars[from..limit]` for `sep`: returns where the field that begins
/// at `from` ends, which is `limit` when no `sep` stands before it.
pub(crate) fn field_end(chars: &Vec<char>, from: usize, limit: usize, sep: char) -> (end: usize)
    requires
        from <= limit <= chars.len(),
    ensures
        end == from + position(chars@.subrange(from as int, limit as int), sep),
        from <= end <= limit,
{
    let mut i: usize = from;
    while i < limit && chars[i] != sep
        invariant
            from <= i <= limit <= chars.len(),
            forall|k: int| from <= k < i ==> chars@[k] != sep,
        decreases limit - i,
    {
        i += 1;
    }
    proof {
        lemma_position_unique(chars@.subrange(from as int, limit as int), sep, i - from);
    }
    i
}

/// Copies the characters `from..to` of `s` into a string of their own.
pub(crate) fn slice_of(s: &str, from: usize, to: usize) -> (part: String)
    requires
        from <= to <= s@.len(),
    ensures
        part@ == s@.subrange(from as int, to as int),
{
    s.substring_char(from, to).to_owned()
}

} // verus!
