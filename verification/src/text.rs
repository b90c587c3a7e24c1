//! Textual forms of identifiers and counters that views show to the webview.

use vstd::prelude::*;

verus! {

/// The lowercase hexadecimal digit of a nibble.
pub open spec fn hex_digit(n: int) -> char {
    if n < 10 {
        (48 + n) as char
    } else {
        (87 + n) as char
    }
}

/// The `k`-th nibble, counted from the most significant one, of a 128-bit value.
pub open spec fn nibble(value: u128, k: int) -> int {
    ((value >> ((124 - 4 * k) as u128)) & 15u128) as int
}

/// How many hyphens precede position `p` of the hyphenated form.
pub open spec fn hyphens_before(p: int) -> int {
    if p < 8 {
        0
    } else if p < 13 {
        1
    } else if p < 18 {
        2
    } else if p < 23 {
        3
    } else {
        4
    }
}

/// The hyphenated lowercase form of a UUID: its 32 hexadecimal digits, most
/// significant first, in groups of 8-4-4-4-12.
pub open spec fn uuid_hyphenated(value: u128) -> Seq<char> {
    Seq::new(
        36,
        |p: int|
            if p == 8 || p == 13 || p == 18 || p == 23 {
                '-'
            } else {
                hex_digit(nibble(value, p - hyphens_before(p)))
            },
    )
}

/// The canonical text of a UUID given as its 128-bit big-endian value. It
/// calls `uuid::Uuid::from_u128`, then formats `hyphenated()` with
/// `to_string`; the contract claims the text is the value's 32 lowercase
/// hexadecimal digits, most significant first, in groups of 8-4-4-4-12
/// joined by hyphens.
#[verifier::external_body]
pub(crate) fn uuid_text(value: u128) -> (text: String)
    ensures
        text@ == uuid_hyphenated(value),
{
    uuid::Uuid::from_u128(value).hyphenated().to_string()
}

/// The decimal digits of a natural number, most significant first.
pub open spec fn decimal(n: nat) -> Seq<char>
    decreases n,
{
    if n < 10 {
        seq![(48 + n) as char]
    } else {
        decimal(n / 10).push((48 + n % 10) as char)
    }
}

/// The text of one decimal digit.
fn digit_text(d: u64) -> (t: &'static str)
    requires
        d < 10,
    ensures
        t@ == seq![(48 + d) as char],
{
    match d {
        0 => {
            proof {
                reveal_strlit("0");
            }
            "0"
        },
        1 => {
            proof {
                reveal_strlit("1");
            }
            "1"
        },
        2 => {
            proof {
                reveal_strlit("2");
            }
            "2"
        },
        3 => {
            proof {
                reveal_strlit("3");
            }
            "3"
        },
        4 => {
            proof {
                reveal_strlit("4");
            }
            "4"
        },
        5 => {
            proof {
                reveal_strlit("5");
            }
            "5"
        },
        6 => {
            proof {
                reveal_strlit("6");
            }
            "6"
        },
        7 => {
            proof {
                reveal_strlit("7");
            }
            "7"
        },
        8 => {
            proof {
                reveal_strlit("8");
            }
            "8"
        },
        _ => {
            proof {
                reveal_strlit("9");
            }
            "9"
        },
    }
}

/// The decimal text of a counter: its decimal digits, most significant
/// first, without sign, padding or separators, as `u64`'s `Display` writes it.
pub(crate) fn decimal_text(value: u64) -> (text: String)
    ensures
        text@ == decimal(value as nat),
    decreases value,
{
    if value < 10 {
        digit_text(value).to_owned()
    } else {
        let head = decimal_text(value / 10);
        let text = head.concat(digit_text(value % 10));
        proof {
            assert(seq![(48 + (value % 10) as nat) as char] =~= seq![].push((48 + (value as nat) % 10) as char));
            assert(text@ =~= decimal((value / 10) as nat).push((48 + (value as nat) % 10) as char));
        }
        text
    }
}

} // verus!
