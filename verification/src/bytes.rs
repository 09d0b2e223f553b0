//! Byte-sequence helpers shared by the wire-format builders and parsers:
//! appending, searching, splitting and trimming, each tied to a spec-level
//! statement of what it does.

use vstd::prelude::*;

verus! {

/// Append `src[from..to]` to `dst`.
pub fn push_slice_range(dst: &mut Vec<u8>, src: &[u8], from: usize, to: usize)
    requires
        from <= to <= src@.len(),
    ensures
        final(dst)@ == old(dst)@ + src@.subrange(from as int, to as int),
{
    let mut i = from;
    while i < to
        invariant
            from <= i <= to <= src@.len(),
            dst@ == old(dst)@ + src@.subrange(from as int, i as int),
        decreases to - i,
    {
        let b = src[i];
        dst.push(b);
        proof {
            assert(src@.subrange(from as int, (i + 1) as int) =~= src@.subrange(
                from as int,
                i as int,
            ).push(src@[i as int]));
        }
        i += 1;
    }
}

/// Append `n` copies of `b` to `dst`.
pub fn push_repeat(dst: &mut Vec<u8>, b: u8, n: usize)
    ensures
        final(dst)@ == old(dst)@ + Seq::new(n as nat, |k: int| b),
{
    let ghost base = dst@;
    let mut i: usize = 0;
    while i < n
        invariant
            i <= n,
            dst@ == base + Seq::new(i as nat, |k: int| b),
        decreases n - i,
    {
        dst.push(b);
        proof {
            assert(base + Seq::new((i + 1) as nat, |k: int| b) =~= (base + Seq::new(
                i as nat,
                |k: int| b,
            )).push(b));
        }
        i += 1;
    }
    proof {
        assert(base + Seq::new(i as nat, |k: int| b) =~= base + Seq::new(n as nat, |k: int| b));
    }
}

/// `n` occurs in `h` at position `i`.
pub open spec fn match_at(h: Seq<u8>, n: Seq<u8>, i: int) -> bool {
    0 <= i && i + n.len() <= h.len() && h.subrange(i, i + n.len()) == n
}

/// The first position at or after `from` where `n` occurs in `h`.
pub open spec fn spec_find(h: Seq<u8>, n: Seq<u8>, from: int) -> Option<int>
    decreases h.len() - from,
{
    if from < 0 || from + n.len() > h.len() {
        None
    } else if n.len() == 0 {
        Some(from)
    } else if match_at(h, n, from) {
        Some(from)
    } else {
        spec_find(h, n, from + 1)
    }
}

/// A found position is a real occurrence at or after `from`.
pub proof fn lemma_find_bounds(h: Seq<u8>, n: Seq<u8>, from: int)
    ensures
        spec_find(h, n, from) matches Some(i) ==> from <= i && match_at(h, n, i),
    decreases h.len() - from,
{
    if !(from < 0 || from + n.len() > h.len()) && n.len() > 0 && !match_at(h, n, from) {
        lemma_find_bounds(h, n, from + 1);
    } else {
        assert(n.len() == 0 && 0 <= from && from <= h.len() ==> h.subrange(from, from) =~= n);
    }
}

/// Whether `n` occurs in `h` at position `i`, checked byte by byte.
pub fn match_here(h: &[u8], n: &[u8], i: usize) -> (r: bool)
    requires
        i + n@.len() <= h@.len(),
    ensures
        r == match_at(h@, n@, i as int),
{
    let hlen = h.len();
    let mut j: usize = 0;
    while j < n.len()
        invariant
            hlen == h@.len(),
            i + n@.len() <= h@.len(),
            j <= n@.len(),
            forall|k: int| 0 <= k < j ==> h@[i + k] == n@[k],
        decreases n@.len() - j,
    {
        if h[i + j] != n[j] {
            proof {
                if match_at(h@, n@, i as int) {
                    assert(h@.subrange(i as int, i + n@.len())[j as int] == h@[i + j]);
                }
            }
            return false;
        }
        j += 1;
    }
    proof {
        assert(h@.subrange(i as int, i + n@.len()) =~= n@);
    }
    true
}

/// Find the first occurrence of `n` in `h` at or after `from`.
pub fn find_sub(h: &[u8], n: &[u8], from: usize) -> (r: Option<usize>)
    ensures
        (match r {
            Some(i) => spec_find(h@, n@, from as int) == Some(i as int),
            None => spec_find(h@, n@, from as int) is None,
        }),
{
    let hlen = h.len();
    if n.len() == 0 {
        if from <= hlen {
            return Some(from);
        }
        return None;
    }
    let mut i = from;
    loop
        invariant
            from <= i,
            hlen == h@.len(),
            n@.len() > 0,
            spec_find(h@, n@, from as int) == spec_find(h@, n@, i as int),
        decreases h@.len() + 1 - i,
    {
        if n.len() > hlen || i > hlen - n.len() {
            return None;
        }
        if match_here(h, n, i) {
            return Some(i);
        }
        i += 1;
    }
}

/// Bytes the captive portal's parsers treat as whitespace.
pub open spec fn is_ws(b: u8) -> bool {
    b == 32 || b == 9 || b == 13 || b == 10
}

/// Membership in a trim class: class 0 is whitespace, any other class is
/// that byte itself (as `-` and `"` trimming use).
pub open spec fn in_class(cl: u8, b: u8) -> bool {
    if cl == 0 {
        is_ws(b)
    } else {
        b == cl
    }
}

/// `s` without its leading bytes of the class.
pub open spec fn spec_trim_start(s: Seq<u8>, cl: u8) -> Seq<u8>
    decreases s.len(),
{
    if s.len() > 0 && in_class(cl, s[0]) {
        spec_trim_start(s.drop_first(), cl)
    } else {
        s
    }
}

/// `s` without its trailing bytes of the class.
pub open spec fn spec_trim_end(s: Seq<u8>, cl: u8) -> Seq<u8>
    decreases s.len(),
{
    if s.len() > 0 && in_class(cl, s.last()) {
        spec_trim_end(s.drop_last(), cl)
    } else {
        s
    }
}

/// `s` without leading and trailing bytes of the class.
pub open spec fn spec_trim(s: Seq<u8>, cl: u8) -> Seq<u8> {
    spec_trim_end(spec_trim_start(s, cl), cl)
}

/// Copy of `s` with both ends trimmed of the class: whitespace for class
/// 0, exactly that byte otherwise.
pub fn trim_class(s: &[u8], cl: u8) -> (r: Vec<u8>)
    ensures
        r@ == spec_trim(s@, cl),
{
    let mut start: usize = 0;
    proof {
        assert(s@.skip(0) =~= s@);
    }
    loop
        invariant
            start <= s@.len(),
            spec_trim_start(s@, cl) == spec_trim_start(s@.skip(start as int), cl),
        ensures
            start <= s@.len(),
            spec_trim_start(s@, cl) == spec_trim_start(s@.skip(start as int), cl),
            start == s@.len() || !in_class(cl, s@[start as int]),
        decreases s@.len() - start,
    {
        if start >= s.len() {
            break;
        }
        let b = s[start];
        let in_cl = if cl == 0 {
            b == 32 || b == 9 || b == 13 || b == 10
        } else {
            b == cl
        };
        if !in_cl {
            break;
        }
        proof {
            assert(s@.skip(start as int).drop_first() =~= s@.skip(start as int + 1));
        }
        start += 1;
    }
    proof {
        assert(spec_trim_start(s@, cl) == s@.skip(start as int));
    }
    let mut end: usize = s.len();
    loop
        invariant
            start <= end <= s@.len(),
            spec_trim_start(s@, cl) == s@.skip(start as int),
            spec_trim_end(s@.subrange(start as int, s@.len() as int), cl) == spec_trim_end(
                s@.subrange(start as int, end as int),
                cl,
            ),
        ensures
            start <= end <= s@.len(),
            spec_trim_end(s@.subrange(start as int, s@.len() as int), cl) == spec_trim_end(
                s@.subrange(start as int, end as int),
                cl,
            ),
            end == start || !in_class(cl, s@[end - 1]),
        decreases end,
    {
        if end <= start {
            break;
        }
        let b = s[end - 1];
        let in_cl = if cl == 0 {
            b == 32 || b == 9 || b == 13 || b == 10
        } else {
            b == cl
        };
        if !in_cl {
            break;
        }
        proof {
            assert(s@.subrange(start as int, end as int).drop_last() =~= s@.subrange(
                start as int,
                end as int - 1,
            ));
            assert(s@.subrange(start as int, end as int).last() == s@[end - 1]);
        }
        end -= 1;
    }
    let mut r: Vec<u8> = Vec::new();
    push_slice_range(&mut r, s, start, end);
    proof {
        assert(s@.skip(start as int) =~= s@.subrange(start as int, s@.len() as int));
        assert(spec_trim_end(s@.subrange(start as int, end as int), cl) == s@.subrange(
            start as int,
            end as int,
        ));
    }
    r
}

/// The views of a sequence of byte vectors.
pub open spec fn deep(vs: Seq<Vec<u8>>) -> Seq<Seq<u8>> {
    Seq::new(vs.len(), |i: int| vs[i]@)
}

/// `h` split on every occurrence of `sep`, leftmost first, separators not
/// kept; a final segment without a separator (or the whole of `h` when
/// `sep` never occurs) is the last element.
pub open spec fn spec_split(h: Seq<u8>, sep: Seq<u8>) -> Seq<Seq<u8>>
    decreases h.len(),
{
    if sep.len() == 0 {
        seq![h]
    } else {
        match spec_find(h, sep, 0) {
            Some(i) => {
                if 0 <= i && i + sep.len() <= h.len() {
                    seq![h.subrange(0, i)] + spec_split(h.subrange(i + sep.len(), h.len() as int), sep)
                } else {
                    seq![h]
                }
            },
            None => seq![h],
        }
    }
}

/// Split `h` on every occurrence of `sep`.
pub fn split_on(h: &[u8], sep: &[u8]) -> (parts: Vec<Vec<u8>>)
    requires
        sep@.len() > 0,
    ensures
        deep(parts@) == spec_split(h@, sep@),
{
    let mut acc: Vec<Vec<u8>> = Vec::new();
    let mut tail: Vec<u8> = Vec::new();
    push_slice_range(&mut tail, h, 0, h.len());
    proof {
        assert(h@.subrange(0, h@.len() as int) =~= h@);
        assert(deep(acc@) + spec_split(tail@, sep@) =~= spec_split(h@, sep@));
    }
    loop
        invariant
            sep@.len() > 0,
            deep(acc@) + spec_split(tail@, sep@) == spec_split(h@, sep@),
        decreases tail@.len(),
    {
        match find_sub(tail.as_slice(), sep, 0) {
            Some(i) => {
                proof {
                    lemma_find_bounds(tail@, sep@, 0);
                }
                let tl = tail.len();
                let mut part: Vec<u8> = Vec::new();
                push_slice_range(&mut part, tail.as_slice(), 0, i);
                let mut rest: Vec<u8> = Vec::new();
                push_slice_range(&mut rest, tail.as_slice(), i + sep.len(), tl);
                let ghost old_acc = acc@;
                let ghost old_tail = tail@;
                acc.push(part);
                tail = rest;
                proof {
                    assert(deep(acc@) =~= deep(old_acc).push(old_tail.subrange(0, i as int)));
                    assert(spec_split(old_tail, sep@) == seq![old_tail.subrange(0, i as int)]
                        + spec_split(tail@, sep@));
                    assert(deep(acc@) + spec_split(tail@, sep@) =~= deep(old_acc) + spec_split(
                        old_tail,
                        sep@,
                    ));
                }
            },
            None => {
                let ghost old_acc = acc@;
                let ghost old_tail = tail@;
                acc.push(tail);
                proof {
                    assert(spec_split(old_tail, sep@) =~= seq![old_tail]);
                    assert(deep(acc@) =~= deep(old_acc).push(old_tail));
                    assert(deep(acc@) =~= deep(old_acc) + spec_split(old_tail, sep@));
                }
                return acc;
            },
        }
    }
}

/// `p` is a prefix of `s`.
pub open spec fn has_prefix(s: Seq<u8>, p: Seq<u8>) -> bool {
    p.len() <= s.len() && s.subrange(0, p.len() as int) == p
}

/// Whether two byte strings hold the same bytes.
pub fn bytes_eq(a: &[u8], b: &[u8]) -> (r: bool)
    ensures
        r == (a@ == b@),
{
    if a.len() != b.len() {
        return false;
    }
    let r = match_here(a, b, 0);
    proof {
        assert(a@.subrange(0, b@.len() as int) =~= a@);
    }
    r
}

/// Whether `p` is a prefix of `s`.
pub fn starts_with(s: &[u8], p: &[u8]) -> (r: bool)
    ensures
        r == has_prefix(s@, p@),
{
    if p.len() > s.len() {
        return false;
    }
    match_here(s, p, 0)
}

} // verus!
