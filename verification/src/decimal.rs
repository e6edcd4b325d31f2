//! Decimal notation for `usize`: what `str::parse::<usize>` accepts, and the
//! canonical decimal spelling of a number.
use vstd::prelude::*;

verus! {

/// An ASCII decimal digit.
pub open spec fn is_digit(c: char) -> bool {
    '0' <= c && c <= '9'
}

/// The value of an ASCII decimal digit.
pub open spec fn digit_value(c: char) -> nat {
    (c as int - '0' as int) as nat
}

/// Every character of `s` is an ASCII decimal digit.
pub open spec fn all_digits(s: Seq<char>) -> bool {
    forall|i: int| 0 <= i < s.len() ==> is_digit(#[trigger] s[i])
}

/// The number whose decimal digits are those of `acc` followed by the digits `t`.
pub open spec fn shift_in(acc: nat, t: Seq<char>) -> nat
    decreases t.len(),
{
    if t.len() == 0 {
        acc
    } else {
        shift_in(acc, t.drop_last()) * 10 + digit_value(t.last())
    }
}

/// The value that the digit string `s` denotes.
pub open spec fn digits_value(s: Seq<char>) -> nat {
    shift_in(0, s)
}

/// The digits that `str::parse::<usize>` reads: a leading `+` is skipped when
/// something follows it.
pub open spec fn unsigned_digits(s: Seq<char>) -> Seq<char> {
    if s.len() > 1 && s[0] == '+' {
        s.drop_first()
    } else {
        s
    }
}

/// What `str::parse::<usize>` gives back for `s`: the value of an optional `+`
/// followed by at least one ASCII digit, provided that it fits in a `usize`.
pub open spec fn parse_usize(s: Seq<char>) -> Option<usize> {
    let d = unsigned_digits(s);
    if d.len() > 0 && all_digits(d) && digits_value(d) <= usize::MAX {
        Some(digits_value(d) as usize)
    } else {
        None
    }
}

/// The ASCII digit of a value below ten.
pub open spec fn digit_char(d: nat) -> char {
    if d == 0 { '0' }
    else if d == 1 { '1' }
    else if d == 2 { '2' }
    else if d == 3 { '3' }
    else if d == 4 { '4' }
    else if d == 5 { '5' }
    else if d == 6 { '6' }
    else if d == 7 { '7' }
    else if d == 8 { '8' }
    else { '9' }
}

/// The digit of a value below ten is a digit of that value.
pub proof fn lemma_digit_char(d: nat)
    requires
        d < 10,
    ensures
        is_digit(digit_char(d)),
        digit_value(digit_char(d)) == d,
{
}

/// The canonical decimal spelling of `n`, as `usize::to_string` writes it.
pub open spec fn decimal(n: nat) -> Seq<char>
    decreases n,
{
    if n < 10 {
        seq![digit_char(n)]
    } else {
        decimal(n / 10).push(digit_char(n % 10))
    }
}

/// The decimal spelling of a number is a nonempty digit string with that value.
pub proof fn lemma_decimal(n: nat)
    ensures
        decimal(n).len() >= 1,
        all_digits(decimal(n)),
        digits_value(decimal(n)) == n,
    decreases n,
{
    lemma_digit_char(n % 10);
    if n < 10 {
        let s = decimal(n);
        assert(s.drop_last() =~= Seq::<char>::empty());
        assert(shift_in(0, s.drop_last()) == 0);
        assert(s.last() == digit_char(n));
    } else {
        lemma_decimal(n / 10);
        let s = decimal(n);
        assert(s.drop_last() =~= decimal(n / 10));
        assert(s.last() == digit_char(n % 10));
        assert(shift_in(0, s) == (n / 10) * 10 + n % 10);
        assert(all_digits(s)) by {
            assert forall|i: int| 0 <= i < s.len() implies is_digit(#[trigger] s[i]) by {
                if i < s.len() - 1 {
                    assert(s[i] == decimal(n / 10)[i]);
                }
            }
        }
    }
}

/// Appending digits to a digit string shifts its value.
pub proof fn lemma_shift_in_concat(a: Seq<char>, t: Seq<char>)
    ensures
        digits_value(a + t) == shift_in(digits_value(a), t),
    decreases t.len(),
{
    if t.len() == 0 {
        assert(a + t =~= a);
    } else {
        lemma_shift_in_concat(a, t.drop_last());
        assert((a + t).drop_last() =~= a + t.drop_last());
        assert((a + t).last() == t.last());
    }
}

/// Shifting in more digits never makes the number smaller.
pub proof fn lemma_shift_in_prefix(acc: nat, t: Seq<char>, k: int)
    requires
        0 <= k <= t.len(),
    ensures
        shift_in(acc, t.take(k)) <= shift_in(acc, t),
    decreases t.len(),
{
    if k < t.len() {
        lemma_shift_in_prefix(acc, t.drop_last(), k);
        assert(t.drop_last().take(k) =~= t.take(k));
    } else {
        assert(t.take(k) =~= t);
    }
}

/// Parsing the decimal spelling of `n` followed by `t` shifts the digits of
/// `t` onto `n`.
pub proof fn lemma_parse_after_decimal(n: nat, t: Seq<char>)
    ensures
        parse_usize(decimal(n) + t) == (if all_digits(t) && shift_in(n, t) <= usize::MAX {
            Some(shift_in(n, t) as usize)
        } else {
            None
        }),
{
    lemma_decimal(n);
    let d = decimal(n);
    let w = d + t;
    assert(w[0] == d[0]);
    assert(is_digit(d[0]));
    assert(unsigned_digits(w) == w);
    lemma_shift_in_concat(d, t);
    assert(all_digits(w) == all_digits(t)) by {
        if all_digits(t) {
            assert forall|i: int| 0 <= i < w.len() implies is_digit(#[trigger] w[i]) by {
                if i < d.len() {
                    assert(w[i] == d[i]);
                } else {
                    assert(w[i] == t[i - d.len()]);
                }
            }
        }
        if all_digits(w) {
            assert forall|i: int| 0 <= i < t.len() implies is_digit(#[trigger] t[i]) by {
                assert(w[i + d.len()] == t[i]);
            }
        }
    }
}

/// Parsing the decimal spelling of a `usize` gives it back.
pub proof fn law_parse_decimal_round_trip(n: usize)
    ensures
        parse_usize(decimal(n as nat)) == Some(n),
{
    lemma_parse_after_decimal(n as nat, Seq::<char>::empty());
    assert(decimal(n as nat) + Seq::<char>::empty() =~= decimal(n as nat));
}

/// A string with a character that is neither a digit nor a leading `+` is no
/// number, and neither is the empty string or a lone `+`.
pub proof fn law_parse_rejects_non_digits(s: Seq<char>, i: int)
    requires
        0 <= i < s.len(),
        !is_digit(s[i]),
        !(i == 0 && s[0] == '+' && s.len() > 1),
    ensures
        parse_usize(s) is None,
{
    let d = unsigned_digits(s);
    if s.len() > 1 && s[0] == '+' {
        assert(d[i - 1] == s[i]);
    } else {
        assert(d[i] == s[i]);
    }
}

/// Reads the digit string `s@.skip(from)` onto the digits of `acc`.
fn shift_in_digits(acc: usize, s: &str, from: usize) -> (r: Option<usize>)
    requires
        from <= s@.len(),
    ensures
        r == (if all_digits(s@.skip(from as int)) && shift_in(acc as nat, s@.skip(from as int))
            <= usize::MAX {
            Some(shift_in(acc as nat, s@.skip(from as int)) as usize)
        } else {
            None
        }),
{
    let n = s.unicode_len();
    let ghost t = s@.skip(from as int);
    let mut value: usize = acc;
    let mut i: usize = from;
    while i < n
        invariant
            n == s@.len(),
            from <= i <= n,
            t == s@.skip(from as int),
            all_digits(t.take(i - from)),
            value == shift_in(acc as nat, t.take(i - from)),
        decreases n - i,
    {
        let c = s.get_char(i);
        let ghost k: int = i - from;
        assert(t[k] == c);
        assert(t.take(k + 1).drop_last() =~= t.take(k));
        assert(t.take(k + 1).last() == c);
        if !('0' <= c && c <= '9') {
            assert(!all_digits(t));
            return None;
        }
        let d = (c as u32 - '0' as u32) as usize;
        let next = match value.checked_mul(10) {
            Some(v) => v.checked_add(d),
            None => None,
        };
        match next {
            Some(v) => {
                value = v;
            },
            None => {
                proof {
                    lemma_shift_in_prefix(acc as nat, t, k + 1);
                }
                return None;
            },
        }
        i = i + 1;
        assert(all_digits(t.take(i - from))) by {
            assert forall|j: int| 0 <= j < t.take(i - from).len() implies is_digit(
                #[trigger] t.take(i - from)[j],
            ) by {
                if j < k {
                    assert(t.take(i - from)[j] == t.take(k)[j]);
                }
            }
        }
    }
    assert(t.take(n - from) =~= t);
    Some(value)
}

/// `s.parse::<usize>()`, as an `Option`.
pub fn parse_decimal(s: &str) -> (r: Option<usize>)
    ensures
        r == parse_usize(s@),
{
    let n = s.unicode_len();
    let from: usize = if n > 1 && s.get_char(0) == '+' { 1 } else { 0 };
    assert(s@.skip(from as int) == unsigned_digits(s@));
    if from == n {
        return None;
    }
    shift_in_digits(0, s, from)
}

/// `(n.to_string() + s).parse::<usize>()`, as an `Option`: the number spelled by
/// the decimal digits of `n` followed by the characters of `s`.
pub fn parse_decimal_after(n: usize, s: &str) -> (r: Option<usize>)
    ensures
        r == parse_usize(decimal(n as nat) + s@),
{
    proof {
        lemma_parse_after_decimal(n as nat, s@);
        assert(s@.skip(0) =~= s@);
    }
    shift_in_digits(n, s, 0)
}

} // verus!
