//! String helpers: lexicographic comparison of character sequences, used for
//! the key order of environment entries, and splitting a string at the first
//! occurrence of a delimiter.

use vstd::prelude::*;
use vstd::string::StrSliceExecFns;

verus! {

/// Relies on std's `String::push`: appends exactly the one character.
pub assume_specification[ String::push ](s: &mut String, c: char)
    ensures
        final(s)@ == old(s)@.push(c),
;

/// Strict lexicographic order on character sequences, by unicode code point.
pub open spec fn str_lt(a: Seq<char>, b: Seq<char>) -> bool
    decreases a.len(),
{
    if b.len() == 0 {
        false
    } else if a.len() == 0 {
        true
    } else if (a[0] as u32) < (b[0] as u32) {
        true
    } else if (a[0] as u32) > (b[0] as u32) {
        false
    } else {
        str_lt(a.drop_first(), b.drop_first())
    }
}

/// Dropping an equal prefix does not change how two sequences compare.
proof fn lemma_str_lt_skip(a: Seq<char>, b: Seq<char>, i: int)
    requires
        0 <= i <= a.len(),
        i <= b.len(),
        forall|j: int| 0 <= j < i ==> a[j] == b[j],
    ensures
        str_lt(a, b) == str_lt(a.skip(i), b.skip(i)),
    decreases i,
{
    if i == 0 {
        assert(a.skip(0) =~= a);
        assert(b.skip(0) =~= b);
    } else {
        assert(a[0] == b[0]);
        assert(str_lt(a, b) == str_lt(a.drop_first(), b.drop_first()));
        assert(a.drop_first().skip(i - 1) =~= a.skip(i));
        assert(b.drop_first().skip(i - 1) =~= b.skip(i));
        lemma_str_lt_skip(a.drop_first(), b.drop_first(), i - 1);
    }
}

/// Law: the order is total — any two sequences compare one way, the other
/// way, or are equal.
pub proof fn lemma_str_lt_trichotomy(a: Seq<char>, b: Seq<char>)
    ensures
        str_lt(a, b) || str_lt(b, a) || a == b,
    decreases a.len(),
{
    if a.len() == 0 && b.len() == 0 {
        assert(a =~= b);
    } else if a.len() != 0 && b.len() != 0 && (a[0] as u32) == (b[0] as u32) {
        lemma_str_lt_trichotomy(a.drop_first(), b.drop_first());
        vstd::utf8::char_u32_cast(a[0], a[0] as u32);
        vstd::utf8::char_u32_cast(b[0], b[0] as u32);
        if a.drop_first() == b.drop_first() {
            assert(a =~= b) by {
                assert(a.drop_first().len() == a.len() - 1);
                assert(b.drop_first().len() == b.len() - 1);
                assert(forall|j: int|
                    1 <= j < a.len() ==> a[j] == a.drop_first()[j - 1] && b[j] == b.drop_first()[j
                        - 1]);
            }
        }
    }
}

/// Law: the order is irreflexive on equal sequences.
pub proof fn lemma_str_lt_irreflexive(a: Seq<char>, b: Seq<char>)
    requires
        a == b,
    ensures
        !str_lt(a, b),
    decreases a.len(),
{
    if a.len() != 0 {
        lemma_str_lt_irreflexive(a.drop_first(), b.drop_first());
    }
}

/// Law: the order is transitive.
pub proof fn lemma_str_lt_transitive(a: Seq<char>, b: Seq<char>, c: Seq<char>)
    requires
        str_lt(a, b),
        str_lt(b, c),
    ensures
        str_lt(a, c),
    decreases a.len() + b.len() + c.len(),
{
    if a.len() != 0 && b.len() != 0 && c.len() != 0 {
        if (a[0] as u32) == (b[0] as u32) && (b[0] as u32) == (c[0] as u32) {
            lemma_str_lt_transitive(a.drop_first(), b.drop_first(), c.drop_first());
        }
    }
}

/// Decides [`str_lt`] on two string slices.
pub fn str_compare_lt(a: &str, b: &str) -> (r: bool)
    ensures
        r == str_lt(a@, b@),
{
    let alen = a.unicode_len();
    let blen = b.unicode_len();
    let mut i: usize = 0;
    loop
        invariant
            0 <= i <= alen,
            i <= blen,
            alen == a@.len(),
            blen == b@.len(),
            forall|j: int| 0 <= j < i ==> a@[j] == b@[j],
        decreases alen - i,
    {
        if i == alen || i == blen {
            proof {
                lemma_str_lt_skip(a@, b@, i as int);
            }
            return alen < blen;
        }
        let ca = a.get_char(i) as u32;
        let cb = b.get_char(i) as u32;
        if ca != cb {
            proof {
                lemma_str_lt_skip(a@, b@, i as int);
            }
            return ca < cb;
        }
        i = i + 1;
    }
}

/// Position of the first occurrence of `d` in `s` at or after `from`, if any.
pub open spec fn spec_find(s: Seq<char>, d: Seq<char>, from: int) -> Option<int>
    decreases s.len() - from + 1,
{
    if from < 0 || from + d.len() > s.len() {
        None
    } else if s.subrange(from, from + d.len() as int) == d {
        Some(from)
    } else {
        spec_find(s, d, from + 1)
    }
}

/// Decides whether `delimiter` occurs in `string` starting at position `from`.
fn matches_at(string: &str, delimiter: &str, from: usize) -> (r: bool)
    requires
        from + delimiter@.len() <= string@.len(),
        string@.len() <= usize::MAX,
    ensures
        r == (string@.subrange(from as int, from + delimiter@.len()) == delimiter@),
{
    let dlen = delimiter.unicode_len();
    let mut k: usize = 0;
    while k < dlen
        invariant
            0 <= k <= dlen,
            dlen == delimiter@.len(),
            from + dlen <= string@.len() <= usize::MAX,
            forall|j: int| 0 <= j < k ==> string@[from + j] == delimiter@[j],
        decreases dlen - k,
    {
        let cs = string.get_char(from + k);
        let cd = delimiter.get_char(k);
        if cs as u32 != cd as u32 {
            proof {
                let sub = string@.subrange(from as int, from + delimiter@.len());
                assert(sub[k as int] == string@[from + k]);
                vstd::utf8::char_u32_cast(cs, cs as u32);
                vstd::utf8::char_u32_cast(cd, cd as u32);
            }
            return false;
        }
        proof {
            vstd::utf8::char_u32_cast(cs, cs as u32);
            vstd::utf8::char_u32_cast(cd, cd as u32);
        }
        k = k + 1;
    }
    assert(string@.subrange(from as int, from + delimiter@.len()) =~= delimiter@);
    true
}

/// Splits `string` at the first occurrence of `delimiter`: the part before it
/// and the part after it. Without an occurrence, the whole string and the
/// empty string.
pub fn str_partition(string: &str, delimiter: &str) -> (r: (String, String))
    ensures
        match spec_find(string@, delimiter@, 0) {
            Some(i) => r.0@ == string@.subrange(0, i) && r.1@ == string@.subrange(
                i + delimiter@.len(),
                string@.len() as int,
            ),
            None => r.0@ == string@ && r.1@ == Seq::<char>::empty(),
        },
{
    let slen = string.unicode_len();
    let dlen = delimiter.unicode_len();
    if dlen == 0 {
        assert(string@.subrange(0, 0) =~= delimiter@);
        assert(string@.subrange(0, string@.len() as int) =~= string@);
        return (String::new(), string.to_owned());
    }
    let mut from: usize = 0;
    loop
        invariant
            0 <= from <= slen,
            1 <= dlen == delimiter@.len(),
            slen == string@.len(),
            spec_find(string@, delimiter@, 0) == spec_find(string@, delimiter@, from as int),
        decreases slen - from,
    {
        if dlen > slen - from {
            assert(spec_find(string@, delimiter@, from as int) is None);
            return (string.to_owned(), String::new());
        }
        if matches_at(string, delimiter, from) {
            assert(spec_find(string@, delimiter@, from as int) == Some(from as int));
            let first = string.substring_char(0, from);
            let second = string.substring_char(from + dlen, slen);
            return (first.to_owned(), second.to_owned());
        }
        assert(spec_find(string@, delimiter@, from as int) == spec_find(
            string@,
            delimiter@,
            from + 1,
        ));
        from = from + 1;
    }
}

} // verus!
