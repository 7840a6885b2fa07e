//! The two dialog texts and the dialog title. The success message embeds the
//! three version components in decimal, rendered by a verified formatter.

use vstd::prelude::*;

verus! {

/// The decimal digit character for `d`.
pub open spec fn spec_digit(d: nat) -> char
    recommends
        d < 10,
{
    if d == 0 {
        '0'
    } else if d == 1 {
        '1'
    } else if d == 2 {
        '2'
    } else if d == 3 {
        '3'
    } else if d == 4 {
        '4'
    } else if d == 5 {
        '5'
    } else if d == 6 {
        '6'
    } else if d == 7 {
        '7'
    } else if d == 8 {
        '8'
    } else {
        '9'
    }
}

/// The decimal rendering of `n`, most significant digit first, with no
/// leading zeros (a single `'0'` for zero).
pub open spec fn spec_decimal(n: nat) -> Seq<char>
    decreases n,
{
    if n < 10 {
        seq![spec_digit(n)]
    } else {
        spec_decimal(n / 10).push(spec_digit(n % 10))
    }
}

/// The one-character string for a single decimal digit.
fn digit_str(d: u32) -> (r: &'static str)
    requires
        d < 10,
    ensures
        r@ == seq![spec_digit(d as nat)],
{
    if d == 0 {
        let r = "0";
        proof {
            reveal_strlit("0");
            assert(r@ =~= seq!['0']);
        }
        r
    } else if d == 1 {
        let r = "1";
        proof {
            reveal_strlit("1");
            assert(r@ =~= seq!['1']);
        }
        r
    } else if d == 2 {
        let r = "2";
        proof {
            reveal_strlit("2");
            assert(r@ =~= seq!['2']);
        }
        r
    } else if d == 3 {
        let r = "3";
        proof {
            reveal_strlit("3");
            assert(r@ =~= seq!['3']);
        }
        r
    } else if d == 4 {
        let r = "4";
        proof {
            reveal_strlit("4");
            assert(r@ =~= seq!['4']);
        }
        r
    } else if d == 5 {
        let r = "5";
        proof {
            reveal_strlit("5");
            assert(r@ =~= seq!['5']);
        }
        r
    } else if d == 6 {
        let r = "6";
        proof {
            reveal_strlit("6");
            assert(r@ =~= seq!['6']);
        }
        r
    } else if d == 7 {
        let r = "7";
        proof {
            reveal_strlit("7");
            assert(r@ =~= seq!['7']);
        }
        r
    } else if d == 8 {
        let r = "8";
        proof {
            reveal_strlit("8");
            assert(r@ =~= seq!['8']);
        }
        r
    } else {
        let r = "9";
        proof {
            reveal_strlit("9");
            assert(r@ =~= seq!['9']);
        }
        r
    }
}

/// Renders `n` in decimal.
pub fn u32_to_decimal(n: u32) -> (r: String)
    ensures
        r@ == spec_decimal(n as nat),
    decreases n,
{
    if n < 10 {
        String::from_str(digit_str(n))
    } else {
        let mut s = u32_to_decimal(n / 10);
        s.append(digit_str(n % 10));
        proof {
            assert(s@ =~= spec_decimal((n / 10) as nat).push(spec_digit((n % 10) as nat)));
        }
        s
    }
}

/// The dialog title.
pub open spec fn spec_title() -> Seq<char> {
    "wkVersionCheck"@
}

/// The message shown when no fixed file-info record was found.
pub open spec fn spec_failure_message() -> Seq<char> {
    "Couldn't find version information!"@
}

/// The message shown for version components `a`, `b` and `c`.
pub open spec fn spec_success_message(a: u32, b: u32, c: u32) -> Seq<char> {
    "The version of your game is "@ + spec_decimal(a as nat) + "."@ + spec_decimal(b as nat)
        + "."@ + spec_decimal(c as nat) + "."@
}

/// Builds the dialog title.
pub fn dialog_title() -> (r: String)
    ensures
        r@ == spec_title(),
{
    String::from_str("wkVersionCheck")
}

/// Builds the failure message.
pub fn failure_message() -> (r: String)
    ensures
        r@ == spec_failure_message(),
{
    String::from_str("Couldn't find version information!")
}

/// Builds the success message for version components `a`, `b` and `c`.
pub fn success_message(a: u32, b: u32, c: u32) -> (r: String)
    ensures
        r@ == spec_success_message(a, b, c),
{
    let mut s = String::from_str("The version of your game is ");
    let sa = u32_to_decimal(a);
    s.append(sa.as_str());
    s.append(".");
    let sb = u32_to_decimal(b);
    s.append(sb.as_str());
    s.append(".");
    let sc = u32_to_decimal(c);
    s.append(sc.as_str());
    s.append(".");
    proof {
        assert(s@ =~= spec_success_message(a, b, c));
    }
    s
}

} // verus!
