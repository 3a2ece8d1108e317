//! Decimal numbers as option values: which strings are accepted and what
//! value they denote.

use vstd::prelude::*;

verus! {

/// A decimal digit character.
pub open spec fn is_digit(c: char) -> bool {
    48 <= c as int && c as int <= 57
}

/// Numeric value of a decimal digit character.
pub open spec fn digit_val(c: char) -> int {
    c as int - 48
}

/// Value of a digit string read in base ten, most significant digit first.
pub open spec fn digits_val(s: Seq<char>) -> int
    decreases s.len(),
{
    if s.len() == 0 {
        0
    } else {
        digits_val(s.drop_last()) * 10 + digit_val(s.last())
    }
}

pub open spec fn all_digits(s: Seq<char>) -> bool {
    forall|i: int| 0 <= i < s.len() ==> is_digit(#[trigger] s[i])
}

/// The digits of a value string: what follows the optional single leading
/// plus sign.
pub open spec fn digits_part(s: Seq<char>) -> Seq<char> {
    if s.len() > 0 && s[0] == '+' {
        s.subrange(1, s.len() as int)
    } else {
        s
    }
}

/// The strings accepted as a non-negative integer option value, exactly the
/// language of `u32` parsing: an optional single leading `+`, then at least
/// one decimal digit and nothing else, with a value that fits in `u32`.
pub open spec fn is_u32_string(s: Seq<char>) -> bool {
    &&& digits_part(s).len() > 0
    &&& all_digits(digits_part(s))
    &&& digits_val(digits_part(s)) <= u32::MAX
}

/// The value an accepted string denotes: that of its digits.
pub open spec fn u32_string_val(s: Seq<char>) -> int {
    digits_val(digits_part(s))
}

pub proof fn lemma_digits_val_nonneg(s: Seq<char>)
    requires
        all_digits(s),
    ensures
        digits_val(s) >= 0,
    decreases s.len(),
{
    if s.len() > 0 {
        assert(all_digits(s.drop_last()));
        lemma_digits_val_nonneg(s.drop_last());
    }
}

/// Reading more digits can only grow the value.
pub proof fn lemma_digits_val_prefix_le(s: Seq<char>, j: int)
    requires
        all_digits(s),
        0 <= j <= s.len(),
    ensures
        digits_val(s.take(j)) <= digits_val(s),
    decreases s.len() - j,
{
    if j == s.len() {
        assert(s.take(j) =~= s);
    } else {
        assert(s.take(j + 1).drop_last() =~= s.take(j));
        assert(all_digits(s.take(j))) by {
            assert(forall|i: int| 0 <= i < j ==> s.take(j)[i] == #[trigger] s[i]);
        }
        lemma_digits_val_nonneg(s.take(j));
        assert(digits_val(s.take(j + 1)) == digits_val(s.take(j)) * 10 + digit_val(s.take(j + 1).last()));
        assert(s.take(j + 1).last() == s[j]);
        lemma_digits_val_prefix_le(s, j + 1);
    }
}

/// Parses a string as a non-negative 32-bit integer written in decimal, with
/// an optional single leading `+`.  Returns the value exactly when the string
/// satisfies `is_u32_string`.
pub fn parse_u32(s: &str) -> (r: Option<u32>)
    ensures
        is_u32_string(s@) ==> r == Some(u32_string_val(s@) as u32),
        !is_u32_string(s@) ==> r is None,
{
    let n = s.unicode_len();
    if n == 0 {
        return None;
    }
    let start: usize = if s.get_char(0) == '+' {
        1
    } else {
        0
    };
    let ghost d = digits_part(s@);
    proof {
        assert(d =~= s@.subrange(start as int, n as int));
    }
    if start == n {
        return None;
    }
    let mut val: u64 = 0;
    let mut i: usize = start;
    while i < n
        invariant
            n == s@.len(),
            start <= i <= n,
            start < n,
            d == digits_part(s@),
            d == s@.subrange(start as int, n as int),
            all_digits(d.take(i as int - start as int)),
            val == digits_val(d.take(i as int - start as int)),
            val <= u32::MAX,
        decreases n - i,
    {
        let c = s.get_char(i);
        let cv = c as u32;
        if cv < 48 || cv > 57 {
            proof {
                assert(d[i as int - start as int] == s@[i as int]);
                assert(!is_digit(d[i as int - start as int]));
                assert(!all_digits(d));
            }
            return None;
        }
        let dgt: u64 = (cv - 48) as u64;
        proof {
            assert(d.take(i as int - start as int + 1).drop_last() =~= d.take(
                i as int - start as int,
            ));
            assert(d.take(i as int - start as int + 1).last() == d[i as int - start as int]);
            assert(d[i as int - start as int] == s@[i as int]);
            assert(all_digits(d.take(i as int - start as int + 1)));
        }
        let next: u64 = val * 10 + dgt;
        if next > 0xFFFF_FFFF {
            proof {
                if all_digits(d) {
                    lemma_digits_val_prefix_le(d, i as int - start as int + 1);
                }
            }
            return None;
        }
        val = next;
        i = i + 1;
    }
    proof {
        assert(d.take(n as int - start as int) =~= d);
    }
    Some(val as u32)
}

} // verus!
