//! Progress estimation for the driver loop.
//!
//! Estimates the wall-clock time the remaining steps will take from the
//! time the finished steps took, and renders it as a human-readable
//! string; the string's exact contents are specified character by
//! character.

use vstd::prelude::*;

verus! {

/// The decimal digit d as a one-character sequence.
pub open spec fn digit_seq(d: int) -> Seq<char> {
    if d == 0 {
        seq!['0']
    } else if d == 1 {
        seq!['1']
    } else if d == 2 {
        seq!['2']
    } else if d == 3 {
        seq!['3']
    } else if d == 4 {
        seq!['4']
    } else if d == 5 {
        seq!['5']
    } else if d == 6 {
        seq!['6']
    } else if d == 7 {
        seq!['7']
    } else if d == 8 {
        seq!['8']
    } else {
        seq!['9']
    }
}

/// The decimal rendering of a non-negative number.
pub open spec fn dec_str(n: int) -> Seq<char>
    decreases n,
{
    if n < 10 {
        digit_seq(n)
    } else {
        dec_str(n / 10) + digit_seq(n % 10)
    }
}

/// One decimal digit as a string slice.
fn digit_str(d: u64) -> (r: &'static str)
    requires
        d < 10,
    ensures
        r@ == digit_seq(d as int),
{
    if d == 0 {
        proof {
            reveal_strlit("0");
        }
        let r = "0";
        proof {
            assert(r@ =~= digit_seq(0));
        }
        r
    } else if d == 1 {
        proof {
            reveal_strlit("1");
        }
        let r = "1";
        proof {
            assert(r@ =~= digit_seq(1));
        }
        r
    } else if d == 2 {
        proof {
            reveal_strlit("2");
        }
        let r = "2";
        proof {
            assert(r@ =~= digit_seq(2));
        }
        r
    } else if d == 3 {
        proof {
            reveal_strlit("3");
        }
        let r = "3";
        proof {
            assert(r@ =~= digit_seq(3));
        }
        r
    } else if d == 4 {
        proof {
            reveal_strlit("4");
        }
        let r = "4";
        proof {
            assert(r@ =~= digit_seq(4));
        }
        r
    } else if d == 5 {
        proof {
            reveal_strlit("5");
        }
        let r = "5";
        proof {
            assert(r@ =~= digit_seq(5));
        }
        r
    } else if d == 6 {
        proof {
            reveal_strlit("6");
        }
        let r = "6";
        proof {
            assert(r@ =~= digit_seq(6));
        }
        r
    } else if d == 7 {
        proof {
            reveal_strlit("7");
        }
        let r = "7";
        proof {
            assert(r@ =~= digit_seq(7));
        }
        r
    } else if d == 8 {
        proof {
            reveal_strlit("8");
        }
        let r = "8";
        proof {
            assert(r@ =~= digit_seq(8));
        }
        r
    } else {
        proof {
            reveal_strlit("9");
        }
        let r = "9";
        proof {
            assert(r@ =~= digit_seq(9));
        }
        r
    }
}

/// A number rendered in decimal.
pub fn u64_to_string(n: u64) -> (r: String)
    ensures
        r@ == dec_str(n as int),
    decreases n,
{
    if n < 10 {
        String::from_str(digit_str(n))
    } else {
        let s = u64_to_string(n / 10);
        s.concat(digit_str(n % 10))
    }
}

/// Seconds the remaining steps are estimated to take: the elapsed seconds
/// per finished step times the number of steps still to run (capped at
/// the u64 range; zero before the first step finishes).
pub open spec fn spec_remaining_secs(current_step: int, elapsed_secs: int, last_step: int) -> int {
    if current_step == 0 {
        0
    } else {
        let r = (elapsed_secs * (last_step - current_step - 1)) / current_step;
        if r > u64::MAX {
            u64::MAX as int
        } else {
            r
        }
    }
}

/// The rendered estimate: minutes and seconds over the remaining
/// seconds, or the zero estimate once the last step is reached.
pub open spec fn spec_time_remaining(current_step: int, elapsed_secs: int, last_step: int)
    -> Seq<char> {
    if current_step >= last_step {
        dec_str(0) + " минут "@ + dec_str(0) + " секунд"@
    } else {
        let rem = spec_remaining_secs(current_step, elapsed_secs, last_step);
        dec_str(rem / 60) + " минут "@ + dec_str(rem % 60) + " секунд"@
    }
}

/// Estimate of the time the remaining steps will take, from the elapsed
/// seconds and the step counters, rendered as minutes and seconds. A
/// zero current step is degenerate (no per-step time is known yet) and
/// yields the zero estimate.
pub fn time_remaining(current_step: u64, elapsed_secs: u64, last_step: u64) -> (r: String)
    ensures
        r@ == spec_time_remaining(current_step as int, elapsed_secs as int, last_step as int),
{
    if current_step >= last_step {
        let s = u64_to_string(0).concat(" минут ").concat("0").concat(" секунд");
        proof {
            reveal_strlit("0");
            assert("0"@ =~= dec_str(0));
        }
        return s;
    }
    let rem: u64 = if current_step == 0 {
        0
    } else {
        let diff = last_step - current_step - 1;
        proof {
            vstd::arithmetic::mul::lemma_mul_upper_bound(
                elapsed_secs as int,
                u64::MAX as int,
                diff as int,
                u64::MAX as int,
            );
            assert((u64::MAX as int) * (u64::MAX as int) <= u128::MAX as int);
        }
        let wide: u128 = (elapsed_secs as u128) * (diff as u128);
        let q: u128 = wide / (current_step as u128);
        if q > u64::MAX as u128 {
            u64::MAX
        } else {
            q as u64
        }
    };
    let minutes = rem / 60;
    let seconds = rem % 60;
    u64_to_string(minutes).concat(" минут ").concat(
        u64_to_string(seconds).concat(" секунд").as_str(),
    )
}

} // verus!
