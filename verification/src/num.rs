use vstd::prelude::*;

use crate::text::collect_chars;

verus! {

/// An ASCII decimal digit.
pub open spec fn is_digit(c: char) -> bool {
    0x30 <= (c as u32) <= 0x39
}

pub open spec fn digit_value(c: char) -> int {
    (c as u32) - 0x30
}

/// Whether every character of `s` is an ASCII decimal digit.
pub open spec fn all_digits(s: Seq<char>) -> bool {
    forall|i: int| 0 <= i < s.len() ==> is_digit(#[trigger] s[i])
}

/// The number that the decimal digits `s` spell.
pub open spec fn digits_value(s: Seq<char>) -> int
    decreases s.len(),
{
    if s.len() == 0 {
        0
    } else {
        10 * digits_value(s.drop_last()) + digit_value(s.last())
    }
}

/// `s` without one leading `'+'`.
pub open spec fn unsigned_digits(s: Seq<char>) -> Seq<char> {
    if s.len() > 0 && s[0] == '+' {
        s.skip(1)
    } else {
        s
    }
}

/// What `str::parse::<u32>` gives for `s`: an optional `'+'`, then one or
/// more ASCII digits whose value fits in a `u32`; anything else is refused.
pub open spec fn spec_parse_u32(s: Seq<char>) -> Option<u32> {
    let d = unsigned_digits(s);
    if d.len() > 0 && all_digits(d) && digits_value(d) <= u32::MAX {
        Some(digits_value(d) as u32)
    } else {
        None
    }
}

/// The character of the decimal digit `d`.
pub open spec fn digit_char(d: int) -> char {
    seq!['0', '1', '2', '3', '4', '5', '6', '7', '8', '9'][d]
}

/// The decimal representation of `n`, without sign or leading zeros.
pub open spec fn decimal(n: nat) -> Seq<char>
    decreases n,
{
    if n < 10 {
        seq![digit_char(n as int)]
    } else {
        decimal(n / 10).push(digit_char((n % 10) as int))
    }
}

/// Parses a decimal `u32` as `str::parse::<u32>` does.
pub fn parse_u32(s: &str) -> (r: Option<u32>)
    ensures
        r == spec_parse_u32(s@),
{
    let v = collect_chars(s);
    let len = v.len();
    let mut i: usize = 0;
    if len > 0 && v[0] == '+' {
        i = 1;
    }
    let start = i;
    let ghost d = unsigned_digits(s@);
    assert(d == v@.subrange(start as int, len as int));
    if start == len {
        return None;
    }
    let mut acc: u64 = 0;
    let mut over = false;
    while i < len
        invariant
            v@ == s@,
            len == v@.len(),
            start <= i <= len,
            d == unsigned_digits(s@),
            d == v@.subrange(start as int, len as int),
            all_digits(v@.subrange(start as int, i as int)),
            over ==> digits_value(v@.subrange(start as int, i as int)) > u32::MAX,
            !over ==> acc == digits_value(v@.subrange(start as int, i as int)) && acc <= u32::MAX,
        decreases len - i,
    {
        let ghost pre = v@.subrange(start as int, i as int);
        let c = v[i];
        let u = c as u32;
        if u < 0x30 || u > 0x39 {
            assert(d[i - start] == c);
            assert(!is_digit(d[i - start]));
            assert(!all_digits(d));
            return None;
        }
        let ghost post = v@.subrange(start as int, i + 1);
        assert(post.drop_last() == pre);
        assert(post.last() == c);
        if !over {
            acc = acc * 10 + (u - 0x30) as u64;
            if acc > 0xffff_ffff {
                over = true;
            }
        }
        i = i + 1;
    }
    assert(v@.subrange(start as int, len as int) == d);
    if over {
        None
    } else {
        Some(acc as u32)
    }
}

/// The one-character string of the decimal digit `d`.
fn digit_str(d: u32) -> (r: &'static str)
    requires
        d < 10,
    ensures
        r@ == seq![digit_char(d as int)],
{
    let r = match d {
        0 => "0",
        1 => "1",
        2 => "2",
        3 => "3",
        4 => "4",
        5 => "5",
        6 => "6",
        7 => "7",
        8 => "8",
        _ => "9",
    };
    proof {
        reveal_strlit("0");
        reveal_strlit("1");
        reveal_strlit("2");
        reveal_strlit("3");
        reveal_strlit("4");
        reveal_strlit("5");
        reveal_strlit("6");
        reveal_strlit("7");
        reveal_strlit("8");
        reveal_strlit("9");
        assert(r@ =~= seq![digit_char(d as int)]);
    }
    r
}

/// The decimal representation of `n`, as `format!("{}", n)` writes it.
pub fn decimal_string(n: u32) -> (s: String)
    ensures
        s@ == decimal(n as nat),
    decreases n,
{
    if n < 10 {
        String::from_str(digit_str(n))
    } else {
        let mut s = decimal_string(n / 10);
        s.append(digit_str(n % 10));
        s
    }
}

proof fn lemma_digit_char(d: int)
    requires
        0 <= d < 10,
    ensures
        is_digit(digit_char(d)),
        digit_value(digit_char(d)) == d,
        digit_char(d) != '+',
{
}

proof fn lemma_decimal_digits(n: nat)
    ensures
        decimal(n).len() > 0,
        all_digits(decimal(n)),
        digits_value(decimal(n)) == n,
    decreases n,
{
    if n < 10 {
        lemma_digit_char(n as int);
        assert(decimal(n).drop_last() =~= Seq::<char>::empty());
        assert(decimal(n).last() == digit_char(n as int));
        assert(digits_value(decimal(n).drop_last()) == 0);
    } else {
        lemma_decimal_digits(n / 10);
        lemma_digit_char((n % 10) as int);
        let s = decimal(n);
        assert(s.drop_last() == decimal(n / 10));
        assert(s.last() == digit_char((n % 10) as int));
        assert(n == 10 * (n / 10) + n % 10) by (nonlinear_arith);
        assert(digits_value(s) == 10 * digits_value(s.drop_last()) + digit_value(s.last()));
        assert(digits_value(s) == n);
        assert forall|i: int| 0 <= i < s.len() implies is_digit(#[trigger] s[i]) by {
            if i < s.len() - 1 {
                assert(s[i] == decimal(n / 10)[i]);
            }
        }
    }
}

/// Reading back the decimal representation of a number gives the number.
pub proof fn lemma_parse_decimal(n: u32)
    ensures
        spec_parse_u32(decimal(n as nat)) == Some(n),
{
    lemma_decimal_digits(n as nat);
    lemma_digit_char(if n < 10 { n as int } else { 0 });
    let s = decimal(n as nat);
    assert(is_digit(s[0]));
    assert(s[0] != '+');
}

/// The decimal representation of `n` is the one `format!("{}", n)` writes:
/// ASCII digits that spell `n`, with no leading zero, so `0` alone for zero.
pub proof fn lemma_decimal_canonical(n: nat)
    ensures
        decimal(n).len() > 0,
        all_digits(decimal(n)),
        digits_value(decimal(n)) == n,
        n > 0 ==> decimal(n)[0] != '0',
        n == 0 ==> decimal(n) == seq!['0'],
    decreases n,
{
    lemma_decimal_digits(n);
    if n <= 9 {
        lemma_digit_char(n as int);
    } else {
        lemma_decimal_canonical(n / 10);
        assert(decimal(n)[0] == decimal(n / 10)[0]);
    }
}

/// Decimal digits spell a number that is not negative.
proof fn lemma_digits_value_nonneg(s: Seq<char>)
    requires
        all_digits(s),
    ensures
        digits_value(s) >= 0,
    decreases s.len(),
{
    if s.len() > 0 {
        assert(is_digit(s[s.len() - 1]));
        assert(all_digits(s.drop_last())) by {
            assert forall|i: int| 0 <= i < s.drop_last().len() implies is_digit(#[trigger] s.drop_last()[i]) by {
                assert(s.drop_last()[i] == s[i]);
            }
        }
        lemma_digits_value_nonneg(s.drop_last());
    }
}

/// A zero in front of decimal digits does not change their value.
proof fn lemma_leading_zero(s: Seq<char>)
    ensures
        digits_value(seq!['0'] + s) == digits_value(s),
    decreases s.len(),
{
    let z = seq!['0'] + s;
    lemma_digit_char(0);
    assert(digit_char(0) == '0');
    if s.len() == 0 {
        assert(z.drop_last() =~= Seq::<char>::empty());
        assert(digits_value(Seq::<char>::empty()) == 0);
        assert(z.last() == '0');
    } else {
        lemma_leading_zero(s.drop_last());
        assert(z.drop_last() =~= seq!['0'] + s.drop_last());
        assert(z.last() == s.last());
    }
}

/// What `parse_u32` accepts: one or more ASCII digits, after at most one
/// leading `'+'`, whose value fits in a `u32`, which is then the result; a
/// number written with a `'+'` or with leading zeros reads as the same
/// number.
pub proof fn lemma_parse_u32_accepts(s: Seq<char>, n: u32)
    ensures
        spec_parse_u32(s) matches Some(v) ==> {
            &&& s.len() > 0
            &&& forall|i: int| 0 <= i < s.len() ==> is_digit(#[trigger] s[i]) || (i == 0 && s[i] == '+')
            &&& exists|k: int| 0 <= k <= 1 && k < s.len() && all_digits(s.skip(k))
                && #[trigger] digits_value(s.skip(k)) == v
        },
        spec_parse_u32(seq!['+'] + decimal(n as nat)) == Some(n),
        spec_parse_u32(seq!['0'] + decimal(n as nat)) == Some(n),
{
    if spec_parse_u32(s) is Some {
        let d = unsigned_digits(s);
        let k: int = if s.len() > 0 && s[0] == '+' { 1 } else { 0 };
        assert(d =~= s.skip(k));
        assert forall|i: int| 0 <= i < s.len() implies is_digit(#[trigger] s[i]) || (i == 0 && s[i] == '+') by {
            if i >= k {
                assert(s[i] == d[i - k]);
            }
        }
        lemma_digits_value_nonneg(d);
        assert(digits_value(s.skip(k)) == spec_parse_u32(s)->Some_0);
    }
    lemma_decimal_canonical(n as nat);
    let dn = decimal(n as nat);
    let p = seq!['+'] + dn;
    assert(p.skip(1) =~= dn);
    assert(unsigned_digits(p) == dn);
    let z = seq!['0'] + dn;
    lemma_digit_char(0);
    assert(digit_char(0) == '0');
    assert(z[0] != '+');
    assert(unsigned_digits(z) == z);
    assert forall|i: int| 0 <= i < z.len() implies is_digit(#[trigger] z[i]) by {
        if i > 0 {
            assert(z[i] == dn[i - 1]);
        }
    }
    lemma_leading_zero(dn);
}

} // verus!
