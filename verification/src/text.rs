//! Numbers and resolutions as text.

use vstd::prelude::*;
use vstd::string::StringExecFns;

verus! {

/// The character of a decimal digit.
pub open spec fn digit(d: int) -> char {
    if d == 0 {
        '0'
    } else if d == 1 {
        '1'
    } else if d == 2 {
        '2'
    } else if d == 3 {
        '3'
    } else if d == 4 {
        '4'
    } else if d == 5 {
        '5'
    } else if d == 6 {
        '6'
    } else if d == 7 {
        '7'
    } else if d == 8 {
        '8'
    } else {
        '9'
    }
}

/// A number in decimal, without leading zeros.
pub open spec fn decimal(n: nat) -> Seq<char>
    decreases n,
{
    if n < 10 {
        seq![digit(n as int)]
    } else {
        decimal(n / 10).push(digit((n % 10) as int))
    }
}

/// A resolution as the protocol writes it: width, `x`, height.
pub open spec fn resolution_text(width: u32, height: u32) -> Seq<char> {
    decimal(width as nat) + seq!['x'] + decimal(height as nat)
}

/// The digits still to be written, in front of those written.
spec fn pending(rest: nat, written: Seq<char>) -> Seq<char> {
    if rest == 0 {
        written
    } else {
        decimal(rest) + written
    }
}

/// The text of one decimal digit.
fn digit_text(d: u32) -> (r: &'static str)
    requires
        d < 10,
    ensures
        r@ == seq![digit(d as int)],
{
    proof {
        reveal_strlit("0");
        reveal_strlit("1");
        reveal_strlit("2");
        reveal_strlit("3");
        reveal_strlit("4");
        reveal_strlit("5");
        reveal_strlit("6");
        reveal_strlit("7");
        reveal_strlit("8");
        reveal_strlit("9");
    }
    let r = if d == 0 {
        "0"
    } else if d == 1 {
        "1"
    } else if d == 2 {
        "2"
    } else if d == 3 {
        "3"
    } else if d == 4 {
        "4"
    } else if d == 5 {
        "5"
    } else if d == 6 {
        "6"
    } else if d == 7 {
        "7"
    } else if d == 8 {
        "8"
    } else {
        "9"
    };
    assert(r@ =~= seq![digit(d as int)]);
    r
}

/// Writes a number in decimal.
pub fn decimal_text(n: u32) -> (text: String)
    ensures
        text@ == decimal(n as nat),
{
    let mut text: String = String::from_str(digit_text(n % 10));
    let mut rest: u32 = n / 10;
    while rest > 0
        invariant
            pending(rest as nat, text@) == decimal(n as nat),
        decreases rest,
    {
        let lead: String = String::from_str(digit_text(rest % 10));
        proof {
            let r = rest as nat;
            let d = seq![digit((r % 10) as int)];
            if r >= 10 {
                assert(decimal(r) == decimal(r / 10).push(digit((r % 10) as int)));
                assert(decimal(r / 10).push(digit((r % 10) as int)) + text@ == decimal(r / 10) + (d
                    + text@));
            } else {
                assert(decimal(r) == d);
            }
        }
        text = lead.concat(text.as_str());
        rest = rest / 10;
    }
    text
}

/// Writes a resolution as the protocol does: width, `x`, height.
pub fn resolution_label(width: u32, height: u32) -> (label: String)
    ensures
        label@ == resolution_text(width, height),
{
    proof {
        reveal_strlit("x");
    }
    let mut label: String = decimal_text(width);
    label.append("x");
    assert("x"@ =~= seq!['x']);
    let high: String = decimal_text(height);
    label.append(high.as_str());
    label
}

} // verus!
