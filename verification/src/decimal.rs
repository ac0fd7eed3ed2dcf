//! The decimal text of a nine-bit value.

use vstd::prelude::*;
use vstd::string::StringExecFns;
use crate::value::U9;

verus! {

/// The character that writes the decimal digit `d`, for `d` below ten: the
/// digits follow one another from `'0'`, whose code is 48.
pub open spec fn digit(d: nat) -> char {
    (d + 48) as char
}

/// The decimal numeral of `n`: its digits from the most significant to the
/// least, with no leading zero except for zero itself.
pub open spec fn decimal(n: nat) -> Seq<char>
    decreases n,
{
    if n < 10 {
        seq![digit(n)]
    } else {
        decimal(n / 10).push(digit(n % 10))
    }
}

/// The one-character text of a single decimal digit.
fn digit_text(d: u16) -> (s: &'static str)
    requires
        d < 10,
    ensures
        s@ == seq![digit(d as nat)],
{
    proof {
        reveal_strlit("0");
        reveal_strlit("1");
        reveal_strlit("2");
        reveal_strlit("3");
        reveal_strlit("4");
        reveal_strlit("5");
        reveal_strlit("6");
        reveal_strlit("7");
        reveal_strlit("8");
        reveal_strlit("9");
    }
    let s = match d {
        0 => "0",
        1 => "1",
        2 => "2",
        3 => "3",
        4 => "4",
        5 => "5",
        6 => "6",
        7 => "7",
        8 => "8",
        _ => "9",
    };
    s
}

impl U9 {
    /// Writes the value in decimal, as `u16` would be written.
    pub fn to_string(&self) -> (s: String)
        ensures
            s@ == decimal(self@),
    {
        let word: u16 = u16::from(*self);
        let mut s = String::new();
        if word >= 100 {
            s.append(digit_text(word / 100));
        }
        if word >= 10 {
            s.append(digit_text((word / 10) % 10));
        }
        s.append(digit_text(word % 10));
        proof {
            reveal_with_fuel(decimal, 3);
        }
        s
    }
}

} // verus!
