use vstd::prelude::*;

verus! {

/// Unicode `White_Space`, the characters that `str::trim` removes.
pub open spec fn is_whitespace(c: char) -> bool {
    let u = c as u32;
    ||| 0x09 <= u <= 0x0d
    ||| u == 0x20
    ||| u == 0x85
    ||| u == 0xa0
    ||| u == 0x1680
    ||| 0x2000 <= u <= 0x200a
    ||| u == 0x2028
    ||| u == 0x2029
    ||| u == 0x202f
    ||| u == 0x205f
    ||| u == 0x3000
}

/// A class of characters that a scan skips over.
pub enum CharClass {
    Whitespace,
    Is(char),
    IsNot(char),
}

pub open spec fn in_class(k: CharClass, c: char) -> bool {
    match k {
        CharClass::Whitespace => is_whitespace(c),
        CharClass::Is(x) => c == x,
        CharClass::IsNot(x) => c != x,
    }
}

/// The number of leading characters of `s` in class `k`.
pub open spec fn lead_len(s: Seq<char>, k: CharClass) -> nat
    decreases s.len(),
{
    if s.len() > 0 && in_class(k, s[0]) {
        1 + lead_len(s.drop_first(), k)
    } else {
        0
    }
}

/// The number of trailing characters of `s` in class `k`.
pub open spec fn trail_len(s: Seq<char>, k: CharClass) -> nat
    decreases s.len(),
{
    if s.len() > 0 && in_class(k, s.last()) {
        1 + trail_len(s.drop_last(), k)
    } else {
        0
    }
}

/// `s` without its leading and trailing characters of class `k`
/// (`str::trim` for whitespace, `str::trim_matches` for one character).
pub open spec fn trim(s: Seq<char>, k: CharClass) -> Seq<char> {
    let t = s.skip(lead_len(s, k) as int);
    t.take(t.len() - trail_len(t, k))
}

/// The leading run that `lead_len` counts is in class `k`, and the
/// character after it is not.
pub proof fn lemma_lead_len_props(s: Seq<char>, k: CharClass)
    ensures
        lead_len(s, k) <= s.len(),
        forall|j: int| 0 <= j < lead_len(s, k) ==> in_class(k, #[trigger] s[j]),
        lead_len(s, k) < s.len() ==> !in_class(k, s[lead_len(s, k) as int]),
    decreases s.len(),
{
    if s.len() > 0 && in_class(k, s[0]) {
        let t = s.drop_first();
        lemma_lead_len_props(t, k);
        assert forall|j: int| 0 <= j < lead_len(s, k) implies in_class(k, #[trigger] s[j]) by {
            if j > 0 {
                assert(s[j] == t[j - 1]);
            }
        }
    }
}

/// The trailing run that `trail_len` counts is in class `k`, and the
/// character before it is not.
pub proof fn lemma_trail_len_props(s: Seq<char>, k: CharClass)
    ensures
        trail_len(s, k) <= s.len(),
        forall|j: int| s.len() - trail_len(s, k) <= j < s.len() ==> in_class(k, #[trigger] s[j]),
        trail_len(s, k) < s.len() ==> !in_class(k, s[s.len() - trail_len(s, k) - 1]),
    decreases s.len(),
{
    if s.len() > 0 && in_class(k, s.last()) {
        let t = s.drop_last();
        lemma_trail_len_props(t, k);
        assert forall|j: int| s.len() - trail_len(s, k) <= j < s.len() implies in_class(k, #[trigger] s[j]) by {
            if j < s.len() - 1 {
                assert(s[j] == t[j]);
            }
        }
        if trail_len(s, k) < s.len() {
            assert(s[s.len() - trail_len(s, k) - 1] == t[t.len() - trail_len(t, k) - 1]);
        }
    }
}

/// Trimming `s` gives what trimming `s` without its trailing run of class
/// `k` gives.
pub proof fn lemma_trim_without_trailing(s: Seq<char>, k: CharClass)
    ensures
        trim(s.take(s.len() - trail_len(s, k)), k) == trim(s, k),
{
    lemma_lead_len_props(s, k);
    lemma_trail_len_props(s, k);
    let l = lead_len(s, k) as int;
    let m = trail_len(s, k) as int;
    let n = s.len() as int;
    let w = s.take(n - m);
    if l == n {
        lemma_trail_len(s, k, n);
        assert(w.len() == 0);
        assert(trim(s, k) =~= Seq::<char>::empty());
        assert(trim(w, k) =~= Seq::<char>::empty());
    } else {
        assert(m < n - l) by {
            if m >= n - l {
                assert(in_class(k, s[l]));
            }
        }
        assert forall|j: int| 0 <= j < l implies in_class(k, #[trigger] w[j]) by {
            assert(w[j] == s[j]);
        }
        assert(w[l] == s[l]);
        lemma_lead_len(w, k, l);
        let core = s.subrange(l, n - m);
        let wt = w.skip(l);
        assert(wt =~= core);
        assert(core[core.len() - 1] == s[n - m - 1]);
        lemma_trail_len(core, k, 0);
        assert(trim(w, k) =~= core);
        let u = s.skip(l);
        assert forall|j: int| u.len() - m <= j < u.len() implies in_class(k, #[trigger] u[j]) by {
            assert(u[j] == s[j + l]);
        }
        assert(u[u.len() - m - 1] == s[n - m - 1]);
        lemma_trail_len(u, k, m);
        assert(trim(s, k) =~= core);
    }
}

/// `lead_len` is the length of the longest prefix in class `k`.
pub proof fn lemma_lead_len(s: Seq<char>, k: CharClass, n: int)
    requires
        0 <= n <= s.len(),
        forall|j: int| 0 <= j < n ==> in_class(k, #[trigger] s[j]),
        n == s.len() || !in_class(k, s[n]),
    ensures
        lead_len(s, k) == n,
    decreases n,
{
    if n > 0 {
        let t = s.drop_first();
        assert forall|j: int| 0 <= j < n - 1 implies in_class(k, #[trigger] t[j]) by {
            assert(t[j] == s[j + 1]);
        }
        lemma_lead_len(t, k, n - 1);
    }
}

/// `trail_len` is the length of the longest suffix in class `k`.
pub proof fn lemma_trail_len(s: Seq<char>, k: CharClass, n: int)
    requires
        0 <= n <= s.len(),
        forall|j: int| s.len() - n <= j < s.len() ==> in_class(k, #[trigger] s[j]),
        n == s.len() || !in_class(k, s[s.len() - n - 1]),
    ensures
        trail_len(s, k) == n,
    decreases n,
{
    if n > 0 {
        let t = s.drop_last();
        assert forall|j: int| t.len() - (n - 1) <= j < t.len() implies in_class(
            k,
            #[trigger] t[j],
        ) by {
            assert(t[j] == s[j]);
        }
        lemma_trail_len(t, k, n - 1);
    }
}

pub(crate) fn class_matches(k: &CharClass, c: char) -> (b: bool)
    ensures
        b == in_class(*k, c),
{
    match k {
        CharClass::Whitespace => {
            let u = c as u32;
            (0x09 <= u && u <= 0x0d) || u == 0x20 || u == 0x85 || u == 0xa0 || u == 0x1680 || (
            0x2000 <= u && u <= 0x200a) || u == 0x2028 || u == 0x2029 || u == 0x202f || u
                == 0x205f || u == 0x3000
        },
        CharClass::Is(x) => c == *x,
        CharClass::IsNot(x) => c != *x,
    }
}

/// The end of the run of class-`k` characters that starts at `start`.
pub(crate) fn skip_leading(v: &Vec<char>, start: usize, end: usize, k: &CharClass) -> (r: usize)
    requires
        start <= end <= v@.len(),
    ensures
        start <= r <= end,
        r - start == lead_len(v@.subrange(start as int, end as int), *k),
{
    let mut i = start;
    while i < end && class_matches(k, v[i])
        invariant
            start <= i <= end <= v@.len(),
            forall|j: int| start <= j < i ==> in_class(*k, #[trigger] v@[j]),
        decreases end - i,
    {
        i = i + 1;
    }
    proof {
        let s = v@.subrange(start as int, end as int);
        assert forall|j: int| 0 <= j < i - start implies in_class(*k, #[trigger] s[j]) by {
            assert(s[j] == v@[start + j]);
        }
        lemma_lead_len(s, *k, i - start);
    }
    i
}

/// The start of the run of class-`k` characters that ends at `end`.
pub(crate) fn skip_trailing(v: &Vec<char>, start: usize, end: usize, k: &CharClass) -> (r: usize)
    requires
        start <= end <= v@.len(),
    ensures
        start <= r <= end,
        end - r == trail_len(v@.subrange(start as int, end as int), *k),
{
    let mut i = end;
    while i > start && class_matches(k, v[i - 1])
        invariant
            start <= i <= end <= v@.len(),
            forall|j: int| i <= j < end ==> in_class(*k, #[trigger] v@[j]),
        decreases i - start,
    {
        i = i - 1;
    }
    proof {
        let s = v@.subrange(start as int, end as int);
        assert forall|j: int| s.len() - (end - i) <= j < s.len() implies in_class(
            *k,
            #[trigger] s[j],
        ) by {
            assert(s[j] == v@[start + j]);
        }
        lemma_trail_len(s, *k, end - i);
    }
    i
}

/// The bounds of `trim(v[start..end], k)`.
pub(crate) fn trim_range(v: &Vec<char>, start: usize, end: usize, k: &CharClass) -> (r: (usize, usize))
    requires
        start <= end <= v@.len(),
    ensures
        start <= r.0 <= r.1 <= end,
        v@.subrange(r.0 as int, r.1 as int) == trim(v@.subrange(start as int, end as int), *k),
{
    let a = skip_leading(v, start, end, k);
    let b = skip_trailing(v, a, end, k);
    proof {
        let s = v@.subrange(start as int, end as int);
        let t = s.skip(lead_len(s, *k) as int);
        assert(t == v@.subrange(a as int, end as int));
        assert(t.take(t.len() - trail_len(t, *k)) == v@.subrange(a as int, b as int));
    }
    (a, b)
}

/// Whether `v[start..end]` spells `lit`.
pub(crate) fn range_is(v: &Vec<char>, start: usize, end: usize, lit: &str) -> (b: bool)
    requires
        start <= end <= v@.len(),
    ensures
        b == (v@.subrange(start as int, end as int) == lit@),
{
    let n = lit.unicode_len();
    if end - start != n {
        return false;
    }
    let mut i: usize = 0;
    while i < n
        invariant
            start <= end <= v@.len(),
            end - start == n == lit@.len(),
            0 <= i <= n,
            forall|j: int| 0 <= j < i ==> v@[start + j] == #[trigger] lit@[j],
        decreases n - i,
    {
        if v[start + i] != lit.get_char(i) {
            assert(v@.subrange(start as int, end as int)[i as int] != lit@[i as int]);
            return false;
        }
        i = i + 1;
    }
    assert(v@.subrange(start as int, end as int) =~= lit@);
    true
}

/// The characters of `text`, in order.
pub(crate) fn collect_chars(text: &str) -> (v: Vec<char>)
    ensures
        v@ == text@,
{
    let mut v: Vec<char> = Vec::new();
    for c in it: text.chars()
        invariant
            v@ == it.history(),
    {
        v.push(c);
    }
    v
}


/// Whether the text `a` is the text `lit`.
pub fn str_is(a: &str, lit: &str) -> (b: bool)
    ensures
        b == (a@ == lit@),
{
    let n = a.unicode_len();
    if n != lit.unicode_len() {
        return false;
    }
    let mut i: usize = 0;
    while i < n
        invariant
            n == a@.len() == lit@.len(),
            0 <= i <= n,
            forall|j: int| 0 <= j < i ==> a@[j] == lit@[j],
        decreases n - i,
    {
        if a.get_char(i) != lit.get_char(i) {
            return false;
        }
        i = i + 1;
    }
    assert(a@ =~= lit@);
    true
}

} // verus!
