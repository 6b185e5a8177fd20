//! Byte-string helpers: ASCII-whitespace trimming, equality, search, append.
//!
//! All text the client handles (provider responses, cache content, record
//! identifiers, request bodies) is carried as UTF-8 bytes; the operations
//! here only ever strip or compare ASCII bytes, which never splits a
//! multi-byte character.

use vstd::prelude::*;

verus! {

/// The bytes treated as surrounding whitespace: space, tab, line feed,
/// carriage return.
pub open spec fn is_ascii_space(b: u8) -> bool {
    b == 32 || b == 9 || b == 10 || b == 13
}

/// A byte string with no whitespace at either end.
pub open spec fn no_outer_space(s: Seq<u8>) -> bool {
    s.len() > 0 ==> !is_ascii_space(s[0]) && !is_ascii_space(s[s.len() - 1])
}

/// `s` with leading ASCII whitespace removed.
pub open spec fn trimmed_front(s: Seq<u8>) -> Seq<u8>
    decreases s.len(),
{
    if s.len() == 0 {
        s
    } else if is_ascii_space(s[0]) {
        trimmed_front(s.drop_first())
    } else {
        s
    }
}

/// `s` with trailing ASCII whitespace removed.
pub open spec fn trimmed_back(s: Seq<u8>) -> Seq<u8>
    decreases s.len(),
{
    if s.len() == 0 {
        s
    } else if is_ascii_space(s.last()) {
        trimmed_back(s.drop_last())
    } else {
        s
    }
}

/// `s` with ASCII whitespace removed from both ends.
pub open spec fn trimmed(s: Seq<u8>) -> Seq<u8> {
    trimmed_back(trimmed_front(s))
}

/// A trimmed string never starts with whitespace.
pub proof fn lemma_trimmed_front_head(s: Seq<u8>)
    ensures
        trimmed_front(s).len() > 0 ==> !is_ascii_space(trimmed_front(s)[0]),
    decreases s.len(),
{
    if s.len() > 0 && is_ascii_space(s[0]) {
        lemma_trimmed_front_head(s.drop_first());
    }
}

/// A trimmed string never ends with whitespace.
pub proof fn lemma_trimmed_back_last(s: Seq<u8>)
    ensures
        trimmed_back(s).len() > 0 ==> !is_ascii_space(trimmed_back(s).last()),
    decreases s.len(),
{
    if s.len() > 0 && is_ascii_space(s.last()) {
        lemma_trimmed_back_last(s.drop_last());
    }
}

/// Trimming the back leaves the first byte in place.
pub proof fn lemma_trimmed_back_head(s: Seq<u8>)
    ensures
        trimmed_back(s).len() > 0 ==> trimmed_back(s)[0] == s[0],
    decreases s.len(),
{
    if s.len() > 0 && is_ascii_space(s.last()) {
        lemma_trimmed_back_head(s.drop_last());
    }
}

/// The result of a full trim carries no whitespace at either end.
pub proof fn lemma_trimmed_no_outer_space(s: Seq<u8>)
    ensures
        no_outer_space(trimmed(s)),
{
    lemma_trimmed_front_head(s);
    lemma_trimmed_back_last(trimmed_front(s));
    lemma_trimmed_back_head(trimmed_front(s));
}

/// Trimming a string that already has no outer whitespace changes nothing.
pub proof fn lemma_trimmed_of_clean(s: Seq<u8>)
    requires
        no_outer_space(s),
    ensures
        trimmed(s) == s,
{
    assert(trimmed_front(s) == s);
    assert(trimmed_back(s) == s);
}

/// Whether `b` counts as surrounding whitespace.
pub fn is_space_byte(b: u8) -> (r: bool)
    ensures
        r == is_ascii_space(b),
{
    b == 32 || b == 9 || b == 10 || b == 13
}

/// Strip ASCII whitespace from both ends of `s`.
pub fn trim_ascii(s: &Vec<u8>) -> (r: Vec<u8>)
    ensures
        r@ == trimmed(s@),
{
    let n = s.len();
    let mut start: usize = 0;
    proof {
        assert(s@.subrange(0, n as int) =~= s@);
    }
    while start < n && is_space_byte(s[start])
        invariant
            n == s@.len(),
            start <= n,
            trimmed_front(s@) == trimmed_front(s@.subrange(start as int, n as int)),
        decreases n - start,
    {
        proof {
            assert(s@.subrange(start as int, n as int).drop_first() =~= s@.subrange(
                start as int + 1,
                n as int,
            ));
        }
        start = start + 1;
    }
    proof {
        if start < n {
            assert(s@.subrange(start as int, n as int)[0] == s@[start as int]);
        }
        assert(trimmed_front(s@) == s@.subrange(start as int, n as int));
    }
    let mut end: usize = n;
    while end > start && is_space_byte(s[end - 1])
        invariant
            n == s@.len(),
            start <= end <= n,
            trimmed_back(s@.subrange(start as int, n as int)) == trimmed_back(
                s@.subrange(start as int, end as int),
            ),
        decreases end,
    {
        proof {
            assert(s@.subrange(start as int, end as int).last() == s@[end as int - 1]);
            assert(s@.subrange(start as int, end as int).drop_last() =~= s@.subrange(
                start as int,
                end as int - 1,
            ));
        }
        end = end - 1;
    }
    proof {
        if end > start {
            assert(s@.subrange(start as int, end as int).last() == s@[end as int - 1]);
        }
        assert(trimmed(s@) == s@.subrange(start as int, end as int));
    }
    let mut r: Vec<u8> = Vec::new();
    let mut i: usize = start;
    proof {
        assert(r@ =~= s@.subrange(start as int, start as int));
    }
    while i < end
        invariant
            start <= i <= end <= n,
            n == s@.len(),
            r@ == s@.subrange(start as int, i as int),
        decreases end - i,
    {
        r.push(s[i]);
        proof {
            assert(s@.subrange(start as int, i as int + 1) =~= s@.subrange(
                start as int,
                i as int,
            ).push(s@[i as int]));
        }
        i = i + 1;
    }
    r
}

/// Byte-for-byte equality of two byte strings.
pub fn bytes_eq(a: &Vec<u8>, b: &Vec<u8>) -> (r: bool)
    ensures
        r == (a@ == b@),
{
    if a.len() != b.len() {
        return false;
    }
    let mut i: usize = 0;
    while i < a.len()
        invariant
            a@.len() == b@.len(),
            i <= a@.len(),
            forall|k: int| 0 <= k < i ==> a@[k] == b@[k],
        decreases a@.len() - i,
    {
        if a[i] != b[i] {
            return false;
        }
        i = i + 1;
    }
    proof {
        assert(a@ =~= b@);
    }
    true
}

/// Whether `s` contains the byte `b`.
pub fn contains_byte(s: &Vec<u8>, b: u8) -> (r: bool)
    ensures
        r == s@.contains(b),
{
    let mut i: usize = 0;
    while i < s.len()
        invariant
            i <= s@.len(),
            forall|k: int| 0 <= k < i ==> s@[k] != b,
        decreases s@.len() - i,
    {
        if s[i] == b {
            return true;
        }
        i = i + 1;
    }
    false
}

/// Append all of `src` to `out`.
pub fn append_bytes(out: &mut Vec<u8>, src: &[u8])
    ensures
        final(out)@ == old(out)@ + src@,
{
    let mut i: usize = 0;
    while i < src.len()
        invariant
            i <= src@.len(),
            out@ == old(out)@ + src@.subrange(0, i as int),
        decreases src@.len() - i,
    {
        out.push(src[i]);
        proof {
            assert(old(out)@ + src@.subrange(0, i as int + 1) =~= (old(out)@ + src@.subrange(
                0,
                i as int,
            )).push(src@[i as int]));
        }
        i = i + 1;
    }
    proof {
        assert(old(out)@ + src@.subrange(0, src@.len() as int) =~= old(out)@ + src@);
    }
}

} // verus!
