//! Small text primitives on `str`: equality, prefix stripping and the
//! decimal `u8` syntax accepted by `u8::from_str`.

use vstd::prelude::*;

verus! {

/// `c` is one of the ASCII decimal digits `0`..`9`.
pub open spec fn is_decimal_digit(c: char) -> bool {
    ('0' as int) <= (c as int) && (c as int) <= ('9' as int)
}

/// Every character of `s` is a decimal digit.
pub open spec fn all_decimal_digits(s: Seq<char>) -> bool {
    forall|i: int| 0 <= i < s.len() ==> #[trigger] is_decimal_digit(s[i])
}

/// The number written by the decimal digits `s` (most significant first).
pub open spec fn decimal_value(s: Seq<char>) -> int
    decreases s.len(),
{
    if s.len() == 0 {
        0
    } else {
        decimal_value(s.drop_last()) * 10 + ((s.last() as int) - ('0' as int))
    }
}

/// The digits that follow an optional leading `+` sign.
pub open spec fn unsigned_digits(s: Seq<char>) -> Seq<char> {
    if s.len() > 0 && s[0] == '+' {
        s.drop_first()
    } else {
        s
    }
}

/// The result of parsing `s` as a `u8`: an optional `+` followed by one or
/// more decimal digits whose value is at most 255; anything else is refused.
pub open spec fn parse_u8_spec(s: Seq<char>) -> Option<u8> {
    let d = unsigned_digits(s);
    if d.len() > 0 && all_decimal_digits(d) && decimal_value(d) <= 255 {
        Some(decimal_value(d) as u8)
    } else {
        None
    }
}

/// Equality of two string slices.
///
/// Calls `<str as PartialEq>::eq`, which compares the two slices character
/// by character; the contract claims it is true exactly when the two
/// character sequences are equal.
#[verifier::external_body]
pub(crate) fn str_equal(a: &str, b: &str) -> (r: bool)
    ensures
        r == (a@ == b@),
{
    a == b
}

/// Removes `prefix` from the front of `s`.
///
/// Calls `str::strip_prefix` with a `&str` pattern; the contract claims what
/// its documentation says: when `s` starts with `prefix` the rest of `s` is
/// returned, and `None` otherwise.
#[verifier::external_body]
pub(crate) fn strip_prefix<'a>(s: &'a str, prefix: &str) -> (r: Option<&'a str>)
    ensures
        match r {
            Some(rest) => s@ == prefix@ + rest@,
            None => !prefix@.is_prefix_of(s@),
        },
{
    s.strip_prefix(prefix)
}

/// The value of a digit string is never negative.
pub proof fn lemma_decimal_value_nonneg(s: Seq<char>)
    requires
        all_decimal_digits(s),
    ensures
        decimal_value(s) >= 0,
    decreases s.len(),
{
    if s.len() > 0 {
        lemma_all_digits_drop_last(s);
        lemma_decimal_value_nonneg(s.drop_last());
        assert(is_decimal_digit(s[s.len() - 1]));
    }
}

/// Dropping the last character keeps a digit string a digit string.
pub proof fn lemma_all_digits_drop_last(s: Seq<char>)
    requires
        s.len() > 0,
        all_decimal_digits(s),
    ensures
        all_decimal_digits(s.drop_last()),
{
    assert forall|i: int| 0 <= i < s.drop_last().len() implies #[trigger] is_decimal_digit(
        s.drop_last()[i],
    ) by {
        assert(is_decimal_digit(s[i]));
    }
}

/// The value of a digit prefix never exceeds the value of the whole digit string.
pub proof fn lemma_decimal_value_prefix_le(s: Seq<char>, k: int)
    requires
        0 <= k <= s.len(),
        all_decimal_digits(s),
    ensures
        decimal_value(s.subrange(0, k)) <= decimal_value(s),
    decreases s.len(),
{
    if k == s.len() {
        assert(s.subrange(0, k) =~= s);
    } else {
        assert(s.subrange(0, k) =~= s.drop_last().subrange(0, k));
        lemma_all_digits_drop_last(s);
        lemma_decimal_value_prefix_le(s.drop_last(), k);
        lemma_decimal_value_nonneg(s.drop_last());
        assert(is_decimal_digit(s[s.len() - 1]));
    }
}

/// Parses `s` as a `u8` in the syntax of `u8::from_str`.
pub fn parse_u8(s: &str) -> (r: Option<u8>)
    ensures
        r == parse_u8_spec(s@),
{
    let n = s.unicode_len();
    let mut start: usize = 0;
    if n > 0 && s.get_char(0) == '+' {
        start = 1;
    }
    let ghost d = unsigned_digits(s@);
    assert(d =~= s@.subrange(start as int, n as int));
    if start >= n {
        return None;
    }
    let mut i: usize = start;
    let mut value: u32 = 0;
    while i < n
        invariant
            start <= i <= n,
            n == s@.len(),
            d == s@.subrange(start as int, n as int),
            d == unsigned_digits(s@),
            all_decimal_digits(s@.subrange(start as int, i as int)),
            value as int == decimal_value(s@.subrange(start as int, i as int)),
            value <= 255,
        decreases n - i,
    {
        let c = s.get_char(i);
        let code = c as u32;
        if code < ('0' as u32) || code > ('9' as u32) {
            assert(!is_decimal_digit(d[i - start]));
            return None;
        }
        let ghost before = s@.subrange(start as int, i as int);
        let ghost after = s@.subrange(start as int, i + 1);
        assert(after.drop_last() =~= before);
        assert(all_decimal_digits(after)) by {
            assert forall|j: int| 0 <= j < after.len() implies #[trigger] is_decimal_digit(
                after[j],
            ) by {
                if j < before.len() {
                    assert(after[j] == before[j]);
                }
            }
        }
        value = value * 10 + (code - ('0' as u32));
        i = i + 1;
        if value > 255 {
            proof {
                if all_decimal_digits(d) {
                    assert(d.subrange(0, (i - start) as int) =~= after);
                    lemma_decimal_value_prefix_le(d, (i - start) as int);
                }
            }
            return None;
        }
    }
    assert(s@.subrange(start as int, i as int) =~= d);
    Some(value as u8)
}

} // verus!
