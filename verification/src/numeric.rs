use vstd::prelude::*;

verus! {

/// Holds of the characters `0-9`.
pub open spec fn is_dec_digit(c: char) -> bool {
    '0' <= c && c <= '9'
}

/// The numeric value of one decimal digit.
pub open spec fn dec_digit_value(c: char) -> int
    recommends
        is_dec_digit(c),
{
    c as int - '0' as int
}

/// Holds of a string made of decimal digits only.
pub open spec fn all_dec_digits(s: Seq<char>) -> bool {
    forall|i: int| 0 <= i < s.len() ==> is_dec_digit(#[trigger] s[i])
}

/// The number a digit string denotes, most significant digit first.
pub open spec fn dec_value(s: Seq<char>) -> int
    decreases s.len(),
{
    if s.len() == 0 {
        0
    } else {
        dec_value(s.drop_last()) * 10 + dec_digit_value(s.last())
    }
}

/// Holds of a string that denotes a number representable as a `u64`: at
/// least one character, digits only, value within range.
pub open spec fn parses_to_u64(s: Seq<char>) -> bool {
    s.len() > 0 && all_dec_digits(s) && dec_value(s) <= u64::MAX
}

/// The value of a digit string is never negative.
proof fn lemma_dec_value_nonneg(s: Seq<char>)
    requires
        all_dec_digits(s),
    ensures
        dec_value(s) >= 0,
    decreases s.len(),
{
    if s.len() > 0 {
        assert(all_dec_digits(s.drop_last())) by {
            assert(forall|i: int|
                0 <= i < s.drop_last().len() ==> s.drop_last()[i] == #[trigger] s[i]);
        }
        lemma_dec_value_nonneg(s.drop_last());
    }
}

/// Extending a digit string by one digit multiplies its value by ten and
/// adds the digit.
proof fn lemma_dec_value_step(s: Seq<char>, i: int)
    requires
        0 <= i < s.len(),
    ensures
        dec_value(s.take(i + 1)) == dec_value(s.take(i)) * 10 + dec_digit_value(s[i]),
{
    assert(s.take(i + 1).drop_last() =~= s.take(i));
    assert(s.take(i + 1).last() == s[i]);
}

/// The value of a digit string only grows as the string is extended.
proof fn lemma_dec_value_prefix_le(s: Seq<char>, i: int, j: int)
    requires
        all_dec_digits(s),
        0 <= i <= j <= s.len(),
    ensures
        dec_value(s.take(i)) <= dec_value(s.take(j)),
    decreases j - i,
{
    if i < j {
        lemma_dec_value_prefix_le(s, i, j - 1);
        lemma_dec_value_step(s, j - 1);
        assert(all_dec_digits(s.take(j - 1))) by {
            assert(forall|k: int|
                0 <= k < s.take(j - 1).len() ==> s.take(j - 1)[k] == #[trigger] s[k]);
        }
        lemma_dec_value_nonneg(s.take(j - 1));
        assert(dec_value(s.take(j - 1)) * 10 >= dec_value(s.take(j - 1)));
        assert(dec_digit_value(s[j - 1]) >= 0);
    }
}

/// Parses a decimal digit string as a `u64`; returns `None` on the empty
/// string, on any character that is not a decimal digit, and on a value
/// that does not fit in a `u64`.
pub fn parse_u64(s: &str) -> (r: Option<u64>)
    ensures
        r is Some <==> parses_to_u64(s@),
        r matches Some(n) ==> n == dec_value(s@),
{
    let len = s.unicode_len();
    if len == 0 {
        return None;
    }
    let mut acc: u64 = 0;
    let mut i: usize = 0;
    while i < len
        invariant
            len == s@.len(),
            i <= len,
            forall|j: int| 0 <= j < i ==> is_dec_digit(#[trigger] s@[j]),
            acc == dec_value(s@.take(i as int)),
        decreases len - i,
    {
        let c = s.get_char(i);
        let v = c as u32;
        if v < 48 || v > 57 {
            return None;
        }
        let d: u64 = (v - 48) as u64;
        proof {
            lemma_dec_value_step(s@, i as int);
        }
        let next = match acc.checked_mul(10) {
            Some(m) => m.checked_add(d),
            None => None,
        };
        acc = match next {
            Some(n) => n,
            None => {
                proof {
                    assert(forall|j: int| 0 <= j < i + 1 ==> is_dec_digit(#[trigger] s@[j]));
                    if all_dec_digits(s@) {
                        assert(dec_value(s@.take(i + 1)) > u64::MAX);
                        lemma_dec_value_prefix_le(s@, i + 1, s@.len() as int);
                        assert(s@.take(s@.len() as int) =~= s@);
                    }
                }
                return None;
            },
        };
        i = i + 1;
    }
    proof {
        assert(s@.take(len as int) =~= s@);
    }
    Some(acc)
}

} // verus!
