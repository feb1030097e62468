//! Text for the diagnostic dump: numbers, quoted texts, values and lists.

use crate::dynamic::Dynamic;
use vstd::prelude::*;
use vstd::string::StringExecFns;

verus! {

/// The text of a decimal digit.
pub open spec fn digit_text(digit: int) -> Seq<char> {
    if digit == 0 {
        "0"@
    } else if digit == 1 {
        "1"@
    } else if digit == 2 {
        "2"@
    } else if digit == 3 {
        "3"@
    } else if digit == 4 {
        "4"@
    } else if digit == 5 {
        "5"@
    } else if digit == 6 {
        "6"@
    } else if digit == 7 {
        "7"@
    } else if digit == 8 {
        "8"@
    } else {
        "9"@
    }
}

/// The decimal numeral of a natural number, without leading zeros.
pub open spec fn decimal(n: nat) -> Seq<char>
    decreases n,
{
    if n < 10 {
        digit_text(n as int)
    } else {
        decimal(n / 10) + digit_text((n % 10) as int)
    }
}

/// The decimal numeral of an integer, with a minus sign where it is
/// negative.
pub open spec fn signed_decimal(n: int) -> Seq<char> {
    if n < 0 {
        "-"@ + decimal((-n) as nat)
    } else {
        decimal(n as nat)
    }
}

/// A text between double quotes, as it is.
pub open spec fn quoted(text: Seq<char>) -> Seq<char> {
    "\""@ + text + "\""@
}

/// An optional text: `Some("..")` or `None`.
pub open spec fn optional_text(text: Option<Seq<char>>) -> Seq<char> {
    match text {
        Some(inner) => "Some("@ + quoted(inner) + ")"@,
        None => "None"@,
    }
}

/// The text of a value: `()`, `true` or `false`, a decimal numeral, or a
/// quoted text.
pub open spec fn dynamic_text(value: Dynamic) -> Seq<char> {
    match value {
        Dynamic::Unit => "()"@,
        Dynamic::Bool(flag) => if flag {
            "true"@
        } else {
            "false"@
        },
        Dynamic::Int(number) => signed_decimal(number as int),
        Dynamic::Str(text) => quoted(text@),
    }
}

/// The texts of a list, with a comma and a blank between neighbours.
pub open spec fn joined(items: Seq<Seq<char>>) -> Seq<char>
    decreases items.len(),
{
    if items.len() == 0 {
        Seq::empty()
    } else if items.len() == 1 {
        items[0]
    } else {
        joined(items.drop_last()) + ", "@ + items.last()
    }
}

/// What one more item adds to the text of a list.
pub proof fn lemma_joined_next(items: Seq<Seq<char>>, done: int)
    requires
        0 <= done < items.len(),
    ensures
        joined(items.take(done + 1)) == (if done == 0 {
            items[0]
        } else {
            joined(items.take(done)) + ", "@ + items[done]
        }),
{
    assert(items.take(done + 1).drop_last() =~= items.take(done));
}

/// The text of a decimal digit.
fn digit_str(digit: u64) -> (text: &'static str)
    requires
        digit < 10,
    ensures
        text@ == digit_text(digit as int),
{
    if digit == 0 {
        "0"
    } else if digit == 1 {
        "1"
    } else if digit == 2 {
        "2"
    } else if digit == 3 {
        "3"
    } else if digit == 4 {
        "4"
    } else if digit == 5 {
        "5"
    } else if digit == 6 {
        "6"
    } else if digit == 7 {
        "7"
    } else if digit == 8 {
        "8"
    } else {
        "9"
    }
}

/// Append the decimal numeral of `n`.
pub fn push_decimal(out: &mut String, n: u64)
    ensures
        final(out)@ == old(out)@ + decimal(n as nat),
    decreases n,
{
    if n >= 10 {
        push_decimal(out, n / 10);
    }
    out.append(digit_str(n % 10));
    proof {
        if n >= 10 {
            assert(final(out)@ =~= old(out)@ + (decimal((n / 10) as nat) + digit_text(
                (n % 10) as int,
            )));
        }
    }
}

/// Append the decimal numeral of `n`, with a minus sign where it is
/// negative.
pub fn push_signed_decimal(out: &mut String, n: i64)
    ensures
        final(out)@ == old(out)@ + signed_decimal(n as int),
{
    if n < 0 {
        out.append("-");
        let magnitude: u64 = if n == i64::MIN {
            0x8000_0000_0000_0000
        } else {
            (-n) as u64
        };
        push_decimal(out, magnitude);
        proof {
            assert(final(out)@ =~= old(out)@ + ("-"@ + decimal((-n) as nat)));
        }
    } else {
        push_decimal(out, n as u64);
    }
}

/// Append `text` between double quotes.
pub fn push_quoted(out: &mut String, text: &str)
    ensures
        final(out)@ == old(out)@ + quoted(text@),
{
    out.append("\"");
    out.append(text);
    out.append("\"");
    proof {
        assert(final(out)@ =~= old(out)@ + quoted(text@));
    }
}

/// Append an optional text.
pub fn push_optional(out: &mut String, text: Option<&str>)
    ensures
        final(out)@ == old(out)@ + optional_text(
            match text {
                Some(inner) => Some(inner@),
                None => None,
            },
        ),
{
    match text {
        Some(inner) => {
            out.append("Some(");
            push_quoted(out, inner);
            out.append(")");
            proof {
                assert(final(out)@ =~= old(out)@ + ("Some("@ + quoted(inner@) + ")"@));
            }
        },
        None => {
            out.append("None");
        },
    }
}

/// Append the text of a value.
pub fn push_dynamic(out: &mut String, value: &Dynamic)
    ensures
        final(out)@ == old(out)@ + dynamic_text(*value),
{
    match value {
        Dynamic::Unit => {
            out.append("()");
        },
        Dynamic::Bool(flag) => {
            if *flag {
                out.append("true");
            } else {
                out.append("false");
            }
        },
        Dynamic::Int(number) => {
            push_signed_decimal(out, *number);
        },
        Dynamic::Str(text) => {
            push_quoted(out, text.as_str());
        },
    }
}

} // verus!
