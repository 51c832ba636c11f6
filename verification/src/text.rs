//! Byte-sequence vocabulary shared by the whole crate.
//!
//! Every request path, template, page body and header value is a sequence of
//! bytes; the spec side works with `Seq<u8>` and these helpers.

use vstd::prelude::*;

verus! {

/// The code points of an ASCII string, one byte per character.
pub open spec fn ascii_bytes(s: Seq<char>) -> Seq<u8> {
    Seq::new(s.len(), |i: int| s[i] as u8)
}

/// `needle` occurs as a contiguous run somewhere inside `hay`.
pub open spec fn contains_seq(hay: Seq<u8>, needle: Seq<u8>) -> bool {
    exists|k: int|
        0 <= k && k + needle.len() <= hay.len() && #[trigger] hay.subrange(
            k,
            k + needle.len() as int,
        ) == needle
}

/// `hay` begins with `prefix`.
pub open spec fn starts_with(hay: Seq<u8>, prefix: Seq<u8>) -> bool {
    prefix.len() <= hay.len() && hay.subrange(0, prefix.len() as int) == prefix
}

/// Copies the bytes of an ASCII string slice into a fresh vector.
pub fn literal_bytes(s: &str) -> (r: Vec<u8>)
    requires
        s.is_ascii(),
    ensures
        r@ == ascii_bytes(s@),
{
    let b: &[u8] = s.as_bytes();
    let v = vstd::slice::slice_to_vec(b);
    proof {
        vstd::string::is_ascii_spec_bytes(s);
        assert(v@ =~= ascii_bytes(s@));
    }
    v
}

/// Appends all of `src` onto the end of `dst`.
pub fn append_bytes(dst: &mut Vec<u8>, src: &Vec<u8>)
    ensures
        final(dst)@ == old(dst)@ + src@,
{
    let mut j: usize = 0;
    while j < src.len()
        invariant
            j <= src.len(),
            dst@ == old(dst)@ + src@.subrange(0, j as int),
        decreases src.len() - j,
    {
        dst.push(src[j]);
        j = j + 1;
        proof {
            assert(old(dst)@ + src@.subrange(0, j - 1) + seq![src@[j - 1]] =~= old(dst)@
                + src@.subrange(0, j as int));
        }
    }
    proof {
        assert(src@.subrange(0, src@.len() as int) =~= src@);
    }
}

/// True when the two vectors hold the same bytes.
pub fn bytes_eq(a: &Vec<u8>, b: &Vec<u8>) -> (r: bool)
    ensures
        r == (a@ == b@),
{
    if a.len() != b.len() {
        return false;
    }
    let mut k: usize = 0;
    while k < a.len()
        invariant
            a@.len() == b@.len(),
            k <= a@.len(),
            forall|j: int| 0 <= j < k ==> a@[j] == b@[j],
        decreases a@.len() - k,
    {
        if a[k] != b[k] {
            return false;
        }
        k = k + 1;
    }
    proof {
        assert(a@ =~= b@);
    }
    true
}

/// True when `v` spells the ASCII string `s`.
pub fn bytes_is(v: &Vec<u8>, s: &str) -> (r: bool)
    requires
        s.is_ascii(),
    ensures
        r == (v@ == ascii_bytes(s@)),
{
    let b = literal_bytes(s);
    bytes_eq(v, &b)
}

/// Copies `v[from..]` into a fresh vector.
pub fn tail_bytes(v: &Vec<u8>, from: usize) -> (r: Vec<u8>)
    requires
        from <= v@.len(),
    ensures
        r@ == v@.subrange(from as int, v@.len() as int),
{
    let mut r: Vec<u8> = Vec::new();
    let mut k: usize = from;
    while k < v.len()
        invariant
            from <= k <= v@.len(),
            r@ == v@.subrange(from as int, k as int),
        decreases v@.len() - k,
    {
        r.push(v[k]);
        k = k + 1;
        proof {
            assert(v@.subrange(from as int, k - 1).push(v@[k - 1]) =~= v@.subrange(
                from as int,
                k as int,
            ));
        }
    }
    r
}

/// A sequence starts with itself prolonged by anything.
pub proof fn lemma_prefix_starts_with(p: Seq<u8>, rest: Seq<u8>)
    ensures
        starts_with(p + rest, p),
{
    assert((p + rest).subrange(0, p.len() as int) =~= p);
}

/// A run inside `b` is still a run inside `a + b`, shifted right.
pub proof fn lemma_contains_prepend(a: Seq<u8>, b: Seq<u8>, n: Seq<u8>)
    requires
        contains_seq(b, n),
    ensures
        contains_seq(a + b, n),
{
    let k = choose|k: int|
        0 <= k && k + n.len() <= b.len() && #[trigger] b.subrange(k, k + n.len() as int) == n;
    let k2 = a.len() + k;
    assert((a + b).subrange(k2, k2 + n.len() as int) =~= b.subrange(k, k + n.len() as int));
    assert(0 <= k2 && k2 + n.len() <= (a + b).len() && (a + b).subrange(k2, k2 + n.len() as int)
        == n);
}

/// A sequence occurs inside anything it is a prefix of.
pub proof fn lemma_prefix_contains(p: Seq<u8>, rest: Seq<u8>)
    ensures
        contains_seq(p + rest, p),
{
    let k = 0int;
    assert((p + rest).subrange(k, k + p.len() as int) =~= p);
    assert(0 <= k && k + p.len() <= (p + rest).len() && (p + rest).subrange(k, k + p.len() as int)
        == p);
}

} // verus!
