//! Decimal rendering of the numbers that appear in protocol commands.

use vstd::prelude::*;

verus! {

/// The character for one decimal digit.
pub open spec fn digit_char(d: nat) -> char {
    if d == 0 {
        '0'
    } else if d == 1 {
        '1'
    } else if d == 2 {
        '2'
    } else if d == 3 {
        '3'
    } else if d == 4 {
        '4'
    } else if d == 5 {
        '5'
    } else if d == 6 {
        '6'
    } else if d == 7 {
        '7'
    } else if d == 8 {
        '8'
    } else {
        '9'
    }
}

/// The usual decimal numeral of `n`: no sign, no leading zeros
/// (except for `n == 0`, which is written "0").
pub open spec fn dec_of(n: nat) -> Seq<char>
    decreases n,
{
    if n < 10 {
        seq![digit_char(n)]
    } else {
        dec_of(n / 10) + seq![digit_char(n % 10)]
    }
}

/// A numeral is never empty.
pub proof fn lemma_dec_of_nonempty(n: nat)
    ensures
        dec_of(n).len() >= 1,
    decreases n,
{
    if n >= 10 {
        lemma_dec_of_nonempty(n / 10);
    }
}

pub(crate) fn digit_str(d: u64) -> (s: &'static str)
    requires
        d < 10,
    ensures
        s@ == seq![digit_char(d as nat)],
{
    let s: &'static str = if d == 0 {
        "0"
    } else if d == 1 {
        "1"
    } else if d == 2 {
        "2"
    } else if d == 3 {
        "3"
    } else if d == 4 {
        "4"
    } else if d == 5 {
        "5"
    } else if d == 6 {
        "6"
    } else if d == 7 {
        "7"
    } else if d == 8 {
        "8"
    } else {
        "9"
    };
    proof {
        reveal_strlit("0");
        reveal_strlit("1");
        reveal_strlit("2");
        reveal_strlit("3");
        reveal_strlit("4");
        reveal_strlit("5");
        reveal_strlit("6");
        reveal_strlit("7");
        reveal_strlit("8");
        reveal_strlit("9");
        assert(s@ =~= seq![digit_char(d as nat)]);
    }
    s
}

/// The decimal numeral of `n` written in exactly `w` digits, leading
/// zeros included (the low `w` digits of `n`).
pub open spec fn fixed_dec_of(n: nat, w: nat) -> Seq<char>
    decreases w,
{
    if w == 0 {
        Seq::empty()
    } else {
        fixed_dec_of(n / 10, (w - 1) as nat) + seq![digit_char(n % 10)]
    }
}

/// Renders the low `w` digits of `n`, leading zeros included.
pub fn u64_to_fixed_string(n: u64, w: u64) -> (s: String)
    ensures
        s@ == fixed_dec_of(n as nat, w as nat),
    decreases w,
{
    if w == 0 {
        let s = String::new();
        proof {
            assert(s@ =~= fixed_dec_of(n as nat, 0));
        }
        s
    } else {
        let mut s = u64_to_fixed_string(n / 10, w - 1);
        s.append(digit_str(n % 10));
        proof {
            assert(s@ =~= fixed_dec_of(n as nat, w as nat));
        }
        s
    }
}

/// The alpha increment of a crossfade over `frames` steps, 1/frames,
/// rendered as a decimal: "1" for a single step, otherwise "0." followed
/// by the first six decimal digits of the fraction, floored to the
/// smallest representable nonzero step ("0.000001") so that a fade of
/// more than a million frames still moves instead of standing still.
pub open spec fn delta_str(frames: nat) -> Seq<char> {
    if frames <= 1 {
        seq!['1']
    } else {
        let frac = 1000000 as nat / frames;
        let stepped = if frac < 1 {
            1 as nat
        } else {
            frac
        };
        seq!['0', '.'] + fixed_dec_of(stepped, 6)
    }
}

/// Renders the crossfade increment 1/frames.
pub fn delta_string(frames: u64) -> (s: String)
    requires
        1 <= frames,
    ensures
        s@ == delta_str(frames as nat),
{
    if frames <= 1 {
        let s = String::from_str("1");
        proof {
            reveal_strlit("1");
            assert(s@ =~= delta_str(frames as nat));
        }
        s
    } else {
        let mut s = String::from_str("0.");
        let mut stepped = 1000000 / frames;
        if stepped == 0 {
            stepped = 1;
        }
        let frac = u64_to_fixed_string(stepped, 6);
        s.append(frac.as_str());
        proof {
            reveal_strlit("0.");
            assert(s@ =~= delta_str(frames as nat));
        }
        s
    }
}

/// Renders `n` in decimal.
pub fn u64_to_string(n: u64) -> (s: String)
    ensures
        s@ == dec_of(n as nat),
    decreases n,
{
    if n < 10 {
        String::from_str(digit_str(n))
    } else {
        let mut s = u64_to_string(n / 10);
        s.append(digit_str(n % 10));
        proof {
            assert(s@ =~= dec_of(n as nat));
        }
        s
    }
}

} // verus!
