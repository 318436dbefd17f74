use vstd::prelude::*;
use vstd::string::StringSliceAdditionalSpecFns;

verus! {

/// True when `p` occurs in `s` starting at position `i`.
pub open spec fn matches_at<A>(s: Seq<A>, p: Seq<A>, i: int) -> bool {
    0 <= i && i + p.len() <= s.len() && s.subrange(i, i + p.len()) =~= p
}

/// The first position at or after `i` where `p` occurs in `s`.
pub open spec fn find_from<A>(s: Seq<A>, p: Seq<A>, i: nat) -> Option<nat>
    decreases s.len() - i,
{
    if i + p.len() > s.len() {
        None
    } else if s.subrange(i as int, (i + p.len()) as int) =~= p {
        Some(i)
    } else {
        find_from(s, p, i + 1)
    }
}

/// The first position where `p` occurs in `s` (what `str::find` gives).
pub open spec fn find<A>(s: Seq<A>, p: Seq<A>) -> Option<nat> {
    find_from(s, p, 0)
}

/// True when `p` occurs somewhere in `s`.
pub open spec fn contains<A>(s: Seq<A>, p: Seq<A>) -> bool {
    find(s, p) is Some
}

/// Every occurrence of `p` in `s`, scanned from the left without overlaps,
/// replaced by `r` (what `str::replace` does for a pattern that is not empty).
pub open spec fn replace_all<A>(s: Seq<A>, p: Seq<A>, r: Seq<A>) -> Seq<A>
    decreases s.len(),
{
    if s.len() == 0 || p.len() == 0 {
        s
    } else if p.len() <= s.len() && s.take(p.len() as int) =~= p {
        r + replace_all(s.skip(p.len() as int), p, r)
    } else {
        seq![s[0]] + replace_all(s.skip(1), p, r)
    }
}

/// What `find_from` returns: the first match at or after `i`, or no match at all.
pub proof fn lemma_find_from<A>(s: Seq<A>, p: Seq<A>, i: nat)
    ensures
        match find_from(s, p, i) {
            Some(k) => i <= k && matches_at(s, p, k as int) && forall|j: int|
                i <= j < k ==> !matches_at(s, p, j),
            None => forall|j: int| i <= j ==> !matches_at(s, p, j),
        },
    decreases s.len() - i,
{
    if i + p.len() > s.len() {
    } else if s.subrange(i as int, (i + p.len()) as int) =~= p {
    } else {
        lemma_find_from(s, p, i + 1);
    }
}

/// `find` gives the first occurrence, and none exists when it gives `None`.
pub proof fn lemma_find<A>(s: Seq<A>, p: Seq<A>)
    ensures
        match find(s, p) {
            Some(k) => matches_at(s, p, k as int) && forall|j: int|
                0 <= j < k ==> !matches_at(s, p, j),
            None => forall|j: int| !matches_at(s, p, j),
        },
{
    lemma_find_from(s, p, 0);
}

/// Whether `p` occurs in `s` at position `i`.
fn bytes_match_at(s: &[u8], p: &[u8], i: usize) -> (r: bool)
    requires
        i + p@.len() <= s@.len(),
    ensures
        r == (s@.subrange(i as int, i + p@.len()) =~= p@),
{
    let slen = s.len();
    let mut k: usize = 0;
    while k < p.len()
        invariant
            slen == s@.len(),
            i + p@.len() <= s@.len(),
            k <= p@.len(),
            forall|j: int| 0 <= j < k ==> s@[i + j] == p@[j],
        decreases p@.len() - k,
    {
        if s[i + k] != p[k] {
            return false;
        }
        k = k + 1;
    }
    true
}

/// The first position of `p` in `s` (`find` over bytes).
pub fn find_bytes(s: &[u8], p: &[u8]) -> (r: Option<usize>)
    ensures
        match r {
            Some(k) => find(s@, p@) == Some(k as nat),
            None => find(s@, p@) is None,
        },
{
    let mut i: usize = 0;
    while p.len() <= s.len() - i
        invariant
            find(s@, p@) == find_from(s@, p@, i as nat),
            i <= s@.len(),
        decreases s@.len() - i,
    {
        if bytes_match_at(s, p, i) {
            return Some(i);
        }
        i = i + 1;
    }
    None
}

/// Whether `p` occurs in `s` at position `i`.
pub fn chars_match_at(s: &Vec<char>, p: &Vec<char>, i: usize) -> (r: bool)
    requires
        i + p@.len() <= s@.len(),
    ensures
        r == (s@.subrange(i as int, i + p@.len()) =~= p@),
{
    let slen = s.len();
    let mut k: usize = 0;
    while k < p.len()
        invariant
            slen == s@.len(),
            i + p@.len() <= s@.len(),
            k <= p@.len(),
            forall|j: int| 0 <= j < k ==> s@[i + j] == p@[j],
        decreases p@.len() - k,
    {
        if s[i + k] != p[k] {
            return false;
        }
        k = k + 1;
    }
    true
}

/// The first position of `p` in `s` (`find` over characters).
pub fn find_chars(s: &Vec<char>, p: &Vec<char>) -> (r: Option<usize>)
    ensures
        match r {
            Some(k) => find(s@, p@) == Some(k as nat),
            None => find(s@, p@) is None,
        },
{
    let mut i: usize = 0;
    while p.len() <= s.len() - i
        invariant
            find(s@, p@) == find_from(s@, p@, i as nat),
            i <= s@.len(),
        decreases s@.len() - i,
    {
        if chars_match_at(s, p, i) {
            return Some(i);
        }
        i = i + 1;
    }
    None
}

/// Whether `p` occurs in `s`.
pub fn contains_chars(s: &Vec<char>, p: &Vec<char>) -> (r: bool)
    ensures
        r == contains(s@, p@),
{
    find_chars(s, p).is_some()
}

/// `s` with every occurrence of `p` replaced by `r`, scanning from the left.
pub fn replace_chars(s: &Vec<char>, p: &Vec<char>, r: &Vec<char>) -> (out: Vec<char>)
    requires
        p@.len() > 0,
    ensures
        out@ == replace_all(s@, p@, r@),
{
    let mut out: Vec<char> = Vec::new();
    let mut i: usize = 0;
    assert(s@.skip(0) =~= s@);
    while i < s.len()
        invariant
            p@.len() > 0,
            i <= s@.len(),
            out@ + replace_all(s@.skip(i as int), p@, r@) == replace_all(s@, p@, r@),
        decreases s@.len() - i,
    {
        let ghost rest = s@.skip(i as int);
        if p.len() <= s.len() - i && chars_match_at(s, p, i) {
            assert(rest.take(p@.len() as int) =~= s@.subrange(i as int, i + p@.len()));
            assert(rest.skip(p@.len() as int) =~= s@.skip(i + p@.len()));
            let mut k: usize = 0;
            let ghost out0 = out@;
            while k < r.len()
                invariant
                    k <= r@.len(),
                    out@ == out0 + r@.take(k as int),
                decreases r@.len() - k,
            {
                out.push(r[k]);
                assert(r@.take(k + 1) =~= r@.take(k as int).push(r@[k as int]));
                k = k + 1;
            }
            assert(r@.take(r@.len() as int) =~= r@);
            assert(out@ + replace_all(s@.skip(i + p@.len()), p@, r@) =~= out0 + replace_all(
                rest,
                p@,
                r@,
            ));
            i = i + p.len();
        } else {
            assert(!(p@.len() <= rest.len() && rest.take(p@.len() as int) =~= p@)) by {
                if p@.len() <= rest.len() {
                    assert(rest.take(p@.len() as int) =~= s@.subrange(i as int, i + p@.len()));
                }
            }
            assert(rest.skip(1) =~= s@.skip(i + 1));
            let ghost out0 = out@;
            out.push(s[i]);
            assert(out@ + replace_all(s@.skip(i + 1), p@, r@) =~= out0 + replace_all(
                rest,
                p@,
                r@,
            ));
            i = i + 1;
        }
    }
    assert(s@.skip(i as int) =~= Seq::<char>::empty());
    assert(out@ + Seq::<char>::empty() =~= out@);
    out
}

/// The characters of `s`, in order.
pub fn chars_of(s: &str) -> (v: Vec<char>)
    ensures
        v@ == s@,
{
    let mut v: Vec<char> = Vec::new();
    for c in it: s.chars()
        invariant
            v@ == it.seq().take(it.index() as int),
            it.seq() == s@,
    {
        v.push(c);
    }
    v
}

/// Appends one character to a `String` (`String::push`): the string gains
/// that character at its end.
#[verifier::external_body]
fn push_char(s: &mut String, c: char)
    ensures
        final(s)@ == old(s)@.push(c),
{
    s.push(c);
}

/// A `String` holding exactly the characters of `v`.
pub fn string_from_chars(v: &Vec<char>) -> (s: String)
    ensures
        s@ == v@,
{
    let mut s = String::new();
    let mut i: usize = 0;
    while i < v.len()
        invariant
            i <= v.len(),
            s@ == v@.take(i as int),
        decreases v.len() - i,
    {
        push_char(&mut s, v[i]);
        assert(v@.take(i + 1) == v@.take(i as int).push(v@[i as int]));
        i = i + 1;
    }
    assert(v@.take(v.len() as int) == v@);
    s
}

} // verus!

verus! {

/// Whether two strings hold the same characters.
pub fn str_eq(a: &str, b: &str) -> (r: bool)
    ensures
        r == (a@ == b@),
{
    let x = a.as_bytes();
    let y = b.as_bytes();
    proof {
        vstd::utf8::encode_utf8_decode_utf8(a@);
        vstd::utf8::encode_utf8_decode_utf8(b@);
    }
    if x.len() != y.len() {
        return false;
    }
    let mut i: usize = 0;
    while i < x.len()
        invariant
            x@ == a.spec_bytes(),
            y@ == b.spec_bytes(),
            x@.len() == y@.len(),
            i <= x@.len(),
            forall|j: int| 0 <= j < i ==> x@[j] == y@[j],
        decreases x@.len() - i,
    {
        if x[i] != y[i] {
            assert(x@ != y@);
            assert(a@ != b@) by {
                if a@ == b@ {
                    assert(a.spec_bytes() == b.spec_bytes());
                }
            }
            return false;
        }
        i = i + 1;
    }
    assert(x@ =~= y@);
    true
}

} // verus!
