//! Character-sequence utilities shared by the whole library.
//!
//! All string logic works over `Vec<char>` so that it can be verified
//! against `Seq<char>` specifications; `chars_of` and `string_of` convert
//! at the boundary.

use vstd::prelude::*;

verus! {

/// ASCII uppercase letter.
pub open spec fn is_upper_alpha(c: char) -> bool {
    65 <= c as u32 && c as u32 <= 90
}

/// ASCII lowercase letter.
pub open spec fn is_lower_alpha(c: char) -> bool {
    97 <= c as u32 && c as u32 <= 122
}

/// ASCII lowercasing of one character; other characters are unchanged.
pub open spec fn lower_char(c: char) -> char {
    if is_upper_alpha(c) {
        ((c as u32 + 32) as u32) as char
    } else {
        c
    }
}

/// ASCII uppercasing of one character; other characters are unchanged.
pub open spec fn upper_char(c: char) -> char {
    if is_lower_alpha(c) {
        ((c as u32 - 32) as u32) as char
    } else {
        c
    }
}

pub open spec fn lower_seq(s: Seq<char>) -> Seq<char> {
    s.map_values(|c: char| lower_char(c))
}

pub open spec fn upper_seq(s: Seq<char>) -> Seq<char> {
    s.map_values(|c: char| upper_char(c))
}

pub fn lower_char_exec(c: char) -> (r: char)
    ensures
        r == lower_char(c),
{
    let u: u32 = c as u32;
    if 65 <= u && u <= 90 {
        ((u + 32) as u8) as char
    } else {
        c
    }
}

pub fn upper_char_exec(c: char) -> (r: char)
    ensures
        r == upper_char(c),
{
    let u: u32 = c as u32;
    if 97 <= u && u <= 122 {
        ((u - 32) as u8) as char
    } else {
        c
    }
}

/// The characters of a string slice, in order.
pub fn chars_of(s: &str) -> (v: Vec<char>)
    ensures
        v@ == s@,
{
    let n: usize = s.unicode_len();
    let mut v: Vec<char> = Vec::new();
    let mut i: usize = 0;
    while i < n
        invariant
            i <= n,
            n == s@.len(),
            v@ == s@.subrange(0, i as int),
        decreases n - i,
    {
        v.push(s.get_char(i));
        proof {
            assert(v@ =~= s@.subrange(0, i + 1));
        }
        i = i + 1;
    }
    proof {
        assert(v@ =~= s@);
    }
    v
}

/// Relies on `String`'s `FromIterator<char>` impl: collecting characters
/// yields the string with exactly those characters in order.
#[verifier::external_body]
pub fn string_of(v: &Vec<char>) -> (s: String)
    ensures
        s@ == v@,
{
    v.iter().collect()
}

pub fn lower_chars(v: &Vec<char>) -> (r: Vec<char>)
    ensures
        r@ == lower_seq(v@),
{
    let mut r: Vec<char> = Vec::new();
    let mut i: usize = 0;
    while i < v.len()
        invariant
            i <= v@.len(),
            r@.len() == i,
            forall|j: int| 0 <= j < i ==> r@[j] == lower_char(v@[j]),
        decreases v@.len() - i,
    {
        r.push(lower_char_exec(v[i]));
        i = i + 1;
    }
    proof {
        assert(r@ =~= lower_seq(v@));
    }
    r
}

pub fn upper_chars(v: &Vec<char>) -> (r: Vec<char>)
    ensures
        r@ == upper_seq(v@),
{
    let mut r: Vec<char> = Vec::new();
    let mut i: usize = 0;
    while i < v.len()
        invariant
            i <= v@.len(),
            r@.len() == i,
            forall|j: int| 0 <= j < i ==> r@[j] == upper_char(v@[j]),
        decreases v@.len() - i,
    {
        r.push(upper_char_exec(v[i]));
        i = i + 1;
    }
    proof {
        assert(r@ =~= upper_seq(v@));
    }
    r
}

pub fn eq_chars(a: &Vec<char>, b: &Vec<char>) -> (r: bool)
    ensures
        r == (a@ == b@),
{
    if a.len() != b.len() {
        return false;
    }
    let mut i: usize = 0;
    while i < a.len()
        invariant
            i <= a@.len(),
            a@.len() == b@.len(),
            forall|j: int| 0 <= j < i ==> a@[j] == b@[j],
        decreases a@.len() - i,
    {
        if a[i] != b[i] {
            return false;
        }
        i = i + 1;
    }
    proof {
        assert(a@ =~= b@);
    }
    true
}

/// Index of the first occurrence of `c` in `s`, if any.
pub open spec fn find_char_spec(s: Seq<char>, c: char) -> Option<int>
    decreases s.len(),
{
    if s.len() == 0 {
        None
    } else if s[0] == c {
        Some(0)
    } else {
        match find_char_spec(s.drop_first(), c) {
            Some(i) => Some(i + 1),
            None => None,
        }
    }
}

/// What `find_char_spec` returns: the first index holding `c`, or `None`
/// when `c` does not occur.
pub proof fn lemma_find_char_spec_props(s: Seq<char>, c: char)
    ensures
        match find_char_spec(s, c) {
            Some(i) => 0 <= i < s.len() && s[i] == c && forall|j: int| 0 <= j < i ==> s[j] != c,
            None => forall|j: int| 0 <= j < s.len() ==> s[j] != c,
        },
    decreases s.len(),
{
    if s.len() > 0 && s[0] != c {
        lemma_find_char_spec_props(s.drop_first(), c);
        match find_char_spec(s.drop_first(), c) {
            Some(i) => {
                assert(s.drop_first()[i] == s[i + 1]);
                assert forall|j: int| 0 <= j < i + 1 implies s[j] != c by {
                    if j > 0 {
                        assert(s.drop_first()[j - 1] == s[j]);
                    }
                }
            },
            None => {
                assert forall|j: int| 0 <= j < s.len() implies s[j] != c by {
                    if j > 0 {
                        assert(s.drop_first()[j - 1] == s[j]);
                    }
                }
            },
        }
    }
}

proof fn lemma_find_char_spec_some(s: Seq<char>, c: char, i: int)
    requires
        0 <= i < s.len(),
        s[i] == c,
        forall|j: int| 0 <= j < i ==> s[j] != c,
    ensures
        find_char_spec(s, c) == Some(i),
    decreases i,
{
    if i > 0 {
        lemma_find_char_spec_some(s.drop_first(), c, i - 1);
    }
}

proof fn lemma_find_char_spec_none(s: Seq<char>, c: char)
    requires
        forall|j: int| 0 <= j < s.len() ==> s[j] != c,
    ensures
        find_char_spec(s, c) is None,
    decreases s.len(),
{
    if s.len() > 0 {
        lemma_find_char_spec_none(s.drop_first(), c);
    }
}

pub fn find_char(v: &Vec<char>, c: char) -> (r: Option<usize>)
    ensures
        match r {
            Some(i) => {
                &&& 0 <= i < v@.len()
                &&& v@[i as int] == c
                &&& forall|j: int| 0 <= j < i ==> v@[j] != c
                &&& find_char_spec(v@, c) == Some(i as int)
            },
            None => {
                &&& forall|j: int| 0 <= j < v@.len() ==> v@[j] != c
                &&& find_char_spec(v@, c) is None
            },
        },
{
    let mut i: usize = 0;
    while i < v.len()
        invariant
            i <= v@.len(),
            forall|j: int| 0 <= j < i ==> v@[j] != c,
        decreases v@.len() - i,
    {
        if v[i] == c {
            proof {
                lemma_find_char_spec_some(v@, c, i as int);
            }
            return Some(i);
        }
        i = i + 1;
    }
    proof {
        lemma_find_char_spec_none(v@, c);
    }
    None
}

/// Copy of `v[from..to]`.
pub fn sub_chars(v: &Vec<char>, from: usize, to: usize) -> (r: Vec<char>)
    requires
        from <= to <= v@.len(),
    ensures
        r@ == v@.subrange(from as int, to as int),
{
    let mut r: Vec<char> = Vec::new();
    let mut i: usize = from;
    while i < to
        invariant
            from <= i <= to <= v@.len(),
            r@.len() == i - from,
            forall|j: int| 0 <= j < r@.len() ==> r@[j] == v@[from + j],
        decreases to - i,
    {
        r.push(v[i]);
        i = i + 1;
    }
    proof {
        assert(r@ =~= v@.subrange(from as int, to as int));
    }
    r
}

/// Whether `v` has the same characters as the string slice `lit`.
pub fn eq_str(v: &Vec<char>, lit: &str) -> (r: bool)
    ensures
        r == (v@ == lit@),
{
    let l = chars_of(lit);
    eq_chars(v, &l)
}

/// Whether `s` ends with `suf`.
pub open spec fn ends_with(s: Seq<char>, suf: Seq<char>) -> bool {
    s.len() >= suf.len() && s.subrange(s.len() - suf.len(), s.len() as int) == suf
}

pub fn ends_with_lit(v: &Vec<char>, suf: &str) -> (r: bool)
    ensures
        r == ends_with(v@, suf@),
{
    let sv = chars_of(suf);
    if v.len() < sv.len() {
        return false;
    }
    let tail = sub_chars(v, v.len() - sv.len(), v.len());
    eq_chars(&tail, &sv)
}

/// Whether `s` starts with `pre`.
pub open spec fn starts_with(s: Seq<char>, pre: Seq<char>) -> bool {
    s.len() >= pre.len() && s.subrange(0, pre.len() as int) == pre
}

pub fn starts_with_chars(v: &Vec<char>, pre: &Vec<char>) -> (r: bool)
    ensures
        r == starts_with(v@, pre@),
{
    if v.len() < pre.len() {
        return false;
    }
    let head = sub_chars(v, 0, pre.len());
    eq_chars(&head, pre)
}

/// Whether `p` occurs in `s` as a contiguous subsequence.
pub open spec fn contains_seq_spec(s: Seq<char>, p: Seq<char>) -> bool {
    exists|k: int| 0 <= k && k + p.len() <= s.len() && #[trigger] s.subrange(k, k + p.len()) == p
}

pub fn contains_lit(v: &Vec<char>, pat: &str) -> (r: bool)
    ensures
        r == contains_seq_spec(v@, pat@),
{
    let p = chars_of(pat);
    if p.len() > v.len() {
        return false;
    }
    if p.len() == 0 {
        proof {
            let k: int = 0;
            assert(v@.subrange(k, k + pat@.len()) =~= pat@);
        }
        return true;
    }
    let mut k: usize = 0;
    while k <= v.len() - p.len()
        invariant
            p@ == pat@,
            1 <= p@.len() <= v@.len(),
            k <= v@.len() - p@.len() + 1,
            forall|kk: int| 0 <= kk < k ==> #[trigger] v@.subrange(kk, kk + p@.len()) != p@,
        decreases v@.len() - k,
    {
        let w = sub_chars(v, k, k + p.len());
        if eq_chars(&w, &p) {
            return true;
        }
        k = k + 1;
    }
    false
}

/// The number of occurrences of `c` in `s`.
pub open spec fn count_char_spec(s: Seq<char>, c: char) -> nat
    decreases s.len(),
{
    if s.len() == 0 {
        0
    } else {
        count_char_spec(s.drop_last(), c) + (if s.last() == c {
            1nat
        } else {
            0nat
        })
    }
}

pub fn count_char(v: &Vec<char>, c: char) -> (r: usize)
    ensures
        r as nat == count_char_spec(v@, c),
{
    let mut count: usize = 0;
    let mut i: usize = 0;
    while i < v.len()
        invariant
            i <= v@.len(),
            count <= i,
            count as nat == count_char_spec(v@.subrange(0, i as int), c),
        decreases v@.len() - i,
    {
        proof {
            assert(v@.subrange(0, i + 1).drop_last() =~= v@.subrange(0, i as int));
            assert(v@.subrange(0, i + 1).last() == v@[i as int]);
        }
        if v[i] == c {
            count = count + 1;
        }
        i = i + 1;
    }
    proof {
        assert(v@.subrange(0, v@.len() as int) =~= v@);
    }
    count
}

pub fn contains_char(cs: &Vec<char>, c: char) -> (r: bool)
    ensures
        r == cs@.contains(c),
{
    let mut i: usize = 0;
    while i < cs.len()
        invariant
            i <= cs@.len(),
            forall|j: int| 0 <= j < i ==> cs@[j] != c,
        decreases cs@.len() - i,
    {
        if cs[i] == c {
            return true;
        }
        i = i + 1;
    }
    false
}

/// `s` with its leading characters drawn from `cs` removed.
pub open spec fn trim_front_any(s: Seq<char>, cs: Seq<char>) -> Seq<char>
    decreases s.len(),
{
    if s.len() > 0 && cs.contains(s[0]) {
        trim_front_any(s.drop_first(), cs)
    } else {
        s
    }
}

/// `s` with its trailing characters drawn from `cs` removed.
pub open spec fn trim_back_any(s: Seq<char>, cs: Seq<char>) -> Seq<char>
    decreases s.len(),
{
    if s.len() > 0 && cs.contains(s.last()) {
        trim_back_any(s.drop_last(), cs)
    } else {
        s
    }
}

/// `s` with characters drawn from `cs` removed at both ends.
pub open spec fn trim_any_spec(s: Seq<char>, cs: Seq<char>) -> Seq<char> {
    trim_back_any(trim_front_any(s, cs), cs)
}

pub fn trim_any(v: &Vec<char>, cs: &Vec<char>) -> (r: Vec<char>)
    ensures
        r@ == trim_any_spec(v@, cs@),
{
    let mut a: usize = 0;
    proof {
        assert(v@.skip(0) =~= v@);
    }
    loop
        invariant
            a <= v@.len(),
            trim_front_any(v@, cs@) == trim_front_any(v@.skip(a as int), cs@),
        ensures
            a <= v@.len(),
            trim_front_any(v@, cs@) == v@.skip(a as int),
        decreases v@.len() - a,
    {
        if a >= v.len() {
            proof {
                assert(v@.skip(a as int) =~= Seq::<char>::empty());
            }
            break;
        }
        if !contains_char(cs, v[a]) {
            proof {
                assert(v@.skip(a as int)[0] == v@[a as int]);
            }
            break;
        }
        proof {
            assert(v@.skip(a as int)[0] == v@[a as int]);
            assert(v@.skip(a as int).drop_first() =~= v@.skip(a + 1));
        }
        a = a + 1;
    }
    let mut b: usize = v.len();
    loop
        invariant
            a <= b <= v@.len(),
            trim_front_any(v@, cs@) == v@.skip(a as int),
            trim_back_any(v@.subrange(a as int, v@.len() as int), cs@) == trim_back_any(
                v@.subrange(a as int, b as int),
                cs@,
            ),
        ensures
            a <= b <= v@.len(),
            trim_back_any(v@.subrange(a as int, v@.len() as int), cs@) == v@.subrange(
                a as int,
                b as int,
            ),
        decreases b,
    {
        if b == a {
            proof {
                assert(v@.subrange(a as int, b as int) =~= Seq::<char>::empty());
            }
            break;
        }
        if !contains_char(cs, v[b - 1]) {
            proof {
                assert(v@.subrange(a as int, b as int).last() == v@[b - 1]);
            }
            break;
        }
        proof {
            assert(v@.subrange(a as int, b as int).last() == v@[b - 1]);
            assert(v@.subrange(a as int, b as int).drop_last() =~= v@.subrange(a as int, b - 1));
        }
        b = b - 1;
    }
    proof {
        assert(v@.skip(a as int) =~= v@.subrange(a as int, v@.len() as int));
    }
    sub_chars(v, a, b)
}

/// The segments of `s` between occurrences of `c`: splitting on the first
/// occurrence, then recursively on the rest. A string without `c` is one
/// segment; each separator adds one.
pub open spec fn split_char_spec(s: Seq<char>, c: char) -> Seq<Seq<char>>
    decreases s.len(),
    via split_char_spec_decreases
{
    match find_char_spec(s, c) {
        Some(i) => seq![s.subrange(0, i)] + split_char_spec(
            s.subrange(i + 1, s.len() as int),
            c,
        ),
        None => seq![s],
    }
}

#[via_fn]
proof fn split_char_spec_decreases(s: Seq<char>, c: char) {
    lemma_find_char_spec_props(s, c);
}

pub fn split_char(v: &Vec<char>, c: char) -> (r: Vec<Vec<char>>)
    ensures
        r.deep_view() == split_char_spec(v@, c),
{
    let mut out: Vec<Vec<char>> = Vec::new();
    let mut rest: Vec<char> = sub_chars(v, 0, v.len());
    proof {
        assert(rest@ =~= v@);
    }
    loop
        invariant
            split_char_spec(v@, c) =~~= out.deep_view() + split_char_spec(rest@, c),
        ensures
            out.deep_view() =~~= split_char_spec(v@, c),
        decreases rest@.len(),
    {
        let ghost out_before = out.deep_view();
        match find_char(&rest, c) {
            Some(i) => {
                let n = rest.len();
                let seg = sub_chars(&rest, 0, i);
                let next = sub_chars(&rest, i + 1, n);
                out.push(seg);
                proof {
                    assert(out.deep_view() =~~= out_before + seq![rest@.subrange(0, i as int)]);
                    assert(split_char_spec(v@, c) =~~= out.deep_view() + split_char_spec(
                        next@,
                        c,
                    ));
                }
                rest = next;
            },
            None => {
                out.push(rest);
                proof {
                    assert(out.deep_view() =~~= split_char_spec(v@, c));
                }
                return out;
            },
        }
    }
}

/// `base` followed by the characters of `tail`.
pub fn extend_chars(base: &Vec<char>, tail: &str) -> (r: Vec<char>)
    ensures
        r@ == base@ + tail@,
{
    let mut r: Vec<char> = Vec::new();
    let mut i: usize = 0;
    while i < base.len()
        invariant
            i <= base@.len(),
            r@ == base@.subrange(0, i as int),
        decreases base@.len() - i,
    {
        r.push(base[i]);
        proof {
            assert(r@ =~= base@.subrange(0, i + 1));
        }
        i = i + 1;
    }
    proof {
        assert(r@ =~= base@);
    }
    let t = chars_of(tail);
    let mut j: usize = 0;
    while j < t.len()
        invariant
            j <= t@.len(),
            t@ == tail@,
            r@ == base@ + t@.subrange(0, j as int),
        decreases t@.len() - j,
    {
        r.push(t[j]);
        proof {
            assert(r@ =~= base@ + t@.subrange(0, j + 1));
        }
        j = j + 1;
    }
    proof {
        assert(r@ =~= base@ + tail@);
    }
    r
}

} // verus!
