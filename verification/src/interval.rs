//! Frame-interval parsing.
//!
//! The frame interval is supplied as a decimal string such as `0.1`. It is
//! parsed exactly into a fixed-point value: a mantissa (the digits with the
//! dot removed) and a scale (the number of digits after the dot), so that
//! the value is `mantissa / 10^scale` seconds. Only a positive value whose
//! mantissa fits a machine word is accepted.

use vstd::prelude::*;
use vstd::string::StringExecFns;
use vstd::string::StrSliceExecFns;
use crate::errors::{CliError, ErrorKind};

verus! {

/// Whether a character is a decimal digit.
pub open spec fn is_digit(c: char) -> bool {
    48 <= c as u32 <= 57
}

/// The numeric value of a digit character.
pub open spec fn digit_val(c: char) -> int {
    c as u32 - 48
}

/// How many dots a text contains.
pub open spec fn count_dots(s: Seq<char>) -> int
    decreases s.len(),
{
    if s.len() == 0 {
        0
    } else {
        count_dots(s.drop_last()) + if s.last() == '.' {
            1int
        } else {
            0int
        }
    }
}

/// How many digits a text contains.
pub open spec fn digit_count(s: Seq<char>) -> int
    decreases s.len(),
{
    if s.len() == 0 {
        0
    } else {
        digit_count(s.drop_last()) + if is_digit(s.last()) {
            1int
        } else {
            0int
        }
    }
}

/// The value of a text's digits read left to right, ignoring dots.
pub open spec fn mantissa_of(s: Seq<char>) -> int
    decreases s.len(),
{
    if s.len() == 0 {
        0
    } else if is_digit(s.last()) {
        mantissa_of(s.drop_last()) * 10 + digit_val(s.last())
    } else {
        mantissa_of(s.drop_last())
    }
}

/// How many digits stand after a dot: the decimal scale of the text.
pub open spec fn scale_of(s: Seq<char>) -> int
    decreases s.len(),
{
    if s.len() == 0 {
        0
    } else if is_digit(s.last()) && count_dots(s.drop_last()) > 0 {
        scale_of(s.drop_last()) + 1
    } else if s.last() == '.' {
        0
    } else {
        scale_of(s.drop_last())
    }
}

/// A text is shaped like a decimal literal: every character is a digit or
/// a dot, at most one dot, and at least one digit.
pub open spec fn decimal_shape(s: Seq<char>) -> bool {
    &&& forall|i: int| 0 <= i < s.len() ==> is_digit(#[trigger] s[i]) || s[i] == '.'
    &&& count_dots(s) <= 1
    &&& digit_count(s) >= 1
}

/// A text parses as a usable frame interval: shaped like a decimal
/// literal, positive, with a mantissa that fits a machine word.
pub open spec fn interval_ok(s: Seq<char>) -> bool {
    decimal_shape(s) && 1 <= mantissa_of(s) <= u64::MAX
}

/// The mantissa of a text is never negative.
proof fn lemma_mantissa_nonneg(s: Seq<char>)
    ensures
        mantissa_of(s) >= 0,
    decreases s.len(),
{
    if s.len() > 0 {
        lemma_mantissa_nonneg(s.drop_last());
    }
}

/// Reading further digits can only grow the mantissa.
proof fn lemma_mantissa_extend(s: Seq<char>, i: int)
    requires
        0 <= i <= s.len(),
    ensures
        mantissa_of(s.take(i)) <= mantissa_of(s),
    decreases s.len() - i,
{
    if i == s.len() {
        assert(s.take(i) =~= s);
    } else {
        let t = s.take(i + 1);
        assert(t.drop_last() =~= s.take(i));
        assert(t.last() == s[i]);
        lemma_mantissa_nonneg(s.take(i));
        lemma_mantissa_extend(s, i + 1);
    }
}

/// Reading further characters can only add dots.
proof fn lemma_dots_extend(s: Seq<char>, i: int)
    requires
        0 <= i <= s.len(),
    ensures
        count_dots(s.take(i)) <= count_dots(s),
    decreases s.len() - i,
{
    if i == s.len() {
        assert(s.take(i) =~= s);
    } else {
        let t = s.take(i + 1);
        assert(t.drop_last() =~= s.take(i));
        assert(t.last() == s[i]);
        lemma_dots_extend(s, i + 1);
    }
}

/// A positive fixed-point duration in seconds: `mantissa / 10^scale`.
#[derive(Clone, Copy, Debug, PartialEq, Eq, Structural)]
pub struct Interval {
    pub mantissa: u64,
    pub scale: usize,
}

/// Parse a frame interval. Success exactly when the text is shaped like a
/// decimal literal, its value is positive, and its mantissa fits a `u64`;
/// the parsed value is then exact, never rounded.
pub fn parse_interval(s: &str) -> (r: Result<Interval, CliError>)
    ensures
        match r {
            Ok(iv) => {
                &&& decimal_shape(s@)
                &&& iv.mantissa == mantissa_of(s@)
                &&& iv.scale == scale_of(s@)
                &&& 1 <= mantissa_of(s@) <= u64::MAX
            },
            Err(e) => {
                &&& !decimal_shape(s@) || mantissa_of(s@) == 0 || mantissa_of(s@) > u64::MAX
                &&& e.kind == ErrorKind::Argument
                &&& e.context@ == "Could not parse frame interval"@
                &&& {
                    ||| (e.cause@ == "not a decimal number"@ && !decimal_shape(s@))
                    ||| (e.cause@ == "interval must be positive"@ && decimal_shape(s@)
                        && mantissa_of(s@) == 0)
                    ||| (e.cause@ == "interval value is too large"@ && mantissa_of(s@) > u64::MAX)
                }
            },
        },
{
    let n = s.unicode_len();
    let mut i: usize = 0;
    let mut mant: u64 = 0;
    let mut dots: usize = 0;
    let mut digits: usize = 0;
    let mut scale: usize = 0;
    while i < n
        invariant
            i <= n,
            n == s@.len(),
            forall|k: int|
                0 <= k < i ==> is_digit(#[trigger] s@[k]) || s@[k] == '.',
            dots == count_dots(s@.take(i as int)),
            digits == digit_count(s@.take(i as int)),
            mant as int == mantissa_of(s@.take(i as int)),
            scale == scale_of(s@.take(i as int)),
            dots <= 1,
            dots == 0 ==> scale == 0,
            digits <= i,
            scale <= i,
        decreases n - i,
    {
        let c = s.get_char(i);
        let x = c as u32;
        proof {
            let t = s@.take(i + 1);
            assert(t.drop_last() =~= s@.take(i as int));
            assert(t.last() == s@[i as int]);
        }
        if 48 <= x && x <= 57 {
            let d = (x - 48) as u64;
            let grown = match mant.checked_mul(10) {
                Some(m) => m.checked_add(d),
                None => None,
            };
            match grown {
                Some(m) => {
                    mant = m;
                },
                None => {
                    proof {
                        lemma_mantissa_nonneg(s@.take(i as int));
                        lemma_mantissa_extend(s@, i + 1);
                    }
                    return Err(
                        CliError::new(
                            ErrorKind::Argument,
                            String::from_str("Could not parse frame interval"),
                            String::from_str("interval value is too large"),
                        ),
                    );
                },
            }
            digits += 1;
            if dots > 0 {
                scale += 1;
            }
        } else if x == 46 {
            if dots > 0 {
                proof {
                    lemma_dots_extend(s@, i + 1);
                }
                return Err(
                    CliError::new(
                        ErrorKind::Argument,
                        String::from_str("Could not parse frame interval"),
                        String::from_str("not a decimal number"),
                    ),
                );
            }
            dots = 1;
        } else {
            proof {
                assert(!is_digit(s@[i as int]) && s@[i as int] != '.');
            }
            return Err(
                CliError::new(
                    ErrorKind::Argument,
                    String::from_str("Could not parse frame interval"),
                    String::from_str("not a decimal number"),
                ),
            );
        }
        i += 1;
    }
    proof {
        assert(s@.take(n as int) =~= s@);
    }
    if digits == 0 {
        return Err(
            CliError::new(
                ErrorKind::Argument,
                String::from_str("Could not parse frame interval"),
                String::from_str("not a decimal number"),
            ),
        );
    }
    if mant == 0 {
        return Err(
            CliError::new(
                ErrorKind::Argument,
                String::from_str("Could not parse frame interval"),
                String::from_str("interval must be positive"),
            ),
        );
    }
    Ok(Interval { mantissa: mant, scale })
}

} // verus!
