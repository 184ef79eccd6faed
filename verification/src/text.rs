//! Verified decimal formatting of the scaled integer values the modes
//! display: plain integers, tenths ("12.3") and hundredths ("12.34").

use vstd::prelude::*;
use vstd::string::StringExecFns;

verus! {

/// The decimal digit character for `d` in `0..10`.
pub open spec fn digit_char(d: int) -> char {
    if d == 0 {
        '0'
    } else if d == 1 {
        '1'
    } else if d == 2 {
        '2'
    } else if d == 3 {
        '3'
    } else if d == 4 {
        '4'
    } else if d == 5 {
        '5'
    } else if d == 6 {
        '6'
    } else if d == 7 {
        '7'
    } else if d == 8 {
        '8'
    } else {
        '9'
    }
}

/// The decimal digit string of `n`, most significant digit first, without
/// leading zeros (but "0" for zero).
pub open spec fn dec_digits(n: nat) -> Seq<char>
    decreases n,
{
    if n < 10 {
        seq![digit_char(n as int)]
    } else {
        dec_digits(n / 10).push(digit_char((n % 10) as int))
    }
}

/// `v` counted in tenths, rendered with one decimal place ("-3.5").
pub open spec fn deci_digits(v: int) -> Seq<char> {
    let a = if v < 0 {
        -v
    } else {
        v
    };
    let sign: Seq<char> = if v < 0 {
        seq!['-']
    } else {
        Seq::empty()
    };
    sign + dec_digits((a / 10) as nat) + seq!['.', digit_char(a % 10)]
}

/// `v` counted in hundredths, rendered with two decimal places ("24.40").
pub open spec fn centi_digits(v: int) -> Seq<char> {
    let a = if v < 0 {
        -v
    } else {
        v
    };
    let sign: Seq<char> = if v < 0 {
        seq!['-']
    } else {
        Seq::empty()
    };
    sign + dec_digits((a / 100) as nat) + seq!['.', digit_char((a / 10) % 10), digit_char(a % 10)]
}

pub open spec fn pow10(k: nat) -> nat
    decreases k,
{
    if k == 0 {
        1
    } else {
        10 * pow10((k - 1) as nat)
    }
}

/// `dec_digits(n)` has at least one character and at most `k` characters
/// once `n < pow10(k)`.
pub proof fn lemma_dec_digits_len(n: nat, k: nat)
    requires
        1 <= k,
        n < pow10(k),
    ensures
        1 <= dec_digits(n).len() <= k,
    decreases n,
{
    if n < 10 {
    } else {
        assert(pow10(k) == 10 * pow10((k - 1) as nat));
        assert(n / 10 < pow10((k - 1) as nat)) by {
            let p = pow10((k - 1) as nat);
            assert(n < 10 * p);
            assert(n / 10 < p) by (nonlinear_arith)
                requires
                    n < 10 * p,
                    0 < p,
            ;
        }
        assert(pow10((k - 1) as nat) >= 10) by {
            lemma_pow10_at_least(k);
        }
        lemma_dec_digits_len(n / 10, (k - 1) as nat);
    }
}

proof fn lemma_pow10_at_least(k: nat)
    requires
        1 <= k,
    ensures
        pow10(k) >= 10,
        k >= 2 ==> pow10((k - 1) as nat) >= 10,
    decreases k,
{
    if k >= 2 {
        lemma_pow10_at_least((k - 1) as nat);
    } else {
        reveal_with_fuel(pow10, 3);
    }
}

/// Length bounds of the formatted strings, for `i32`-ranged inputs.
pub proof fn lemma_format_lengths(v: int)
    requires
        -0x8000_0000 <= v <= 0x8000_0000,
    ensures
        1 <= deci_digits(v).len() <= 13,
        1 <= centi_digits(v).len() <= 14,
{
    let a = if v < 0 {
        -v
    } else {
        v
    };
    assert(pow10(10) == 10000000000) by {
        reveal_with_fuel(pow10, 11);
    }
    lemma_dec_digits_len((a / 10) as nat, 10);
    lemma_dec_digits_len((a / 100) as nat, 10);
}

fn digit_str(d: u32) -> (s: &'static str)
    requires
        d < 10,
    ensures
        s@ == seq![digit_char(d as int)],
{
    if d == 0 {
        proof {
            reveal_strlit("0");
        }
        let s = "0";
        proof {
            assert(s@ =~= seq![digit_char(d as int)]);
        }
        s
    } else if d == 1 {
        proof {
            reveal_strlit("1");
        }
        let s = "1";
        proof {
            assert(s@ =~= seq![digit_char(d as int)]);
        }
        s
    } else if d == 2 {
        proof {
            reveal_strlit("2");
        }
        let s = "2";
        proof {
            assert(s@ =~= seq![digit_char(d as int)]);
        }
        s
    } else if d == 3 {
        proof {
            reveal_strlit("3");
        }
        let s = "3";
        proof {
            assert(s@ =~= seq![digit_char(d as int)]);
        }
        s
    } else if d == 4 {
        proof {
            reveal_strlit("4");
        }
        let s = "4";
        proof {
            assert(s@ =~= seq![digit_char(d as int)]);
        }
        s
    } else if d == 5 {
        proof {
            reveal_strlit("5");
        }
        let s = "5";
        proof {
            assert(s@ =~= seq![digit_char(d as int)]);
        }
        s
    } else if d == 6 {
        proof {
            reveal_strlit("6");
        }
        let s = "6";
        proof {
            assert(s@ =~= seq![digit_char(d as int)]);
        }
        s
    } else if d == 7 {
        proof {
            reveal_strlit("7");
        }
        let s = "7";
        proof {
            assert(s@ =~= seq![digit_char(d as int)]);
        }
        s
    } else if d == 8 {
        proof {
            reveal_strlit("8");
        }
        let s = "8";
        proof {
            assert(s@ =~= seq![digit_char(d as int)]);
        }
        s
    } else {
        proof {
            reveal_strlit("9");
        }
        let s = "9";
        proof {
            assert(s@ =~= seq![digit_char(d as int)]);
        }
        s
    }
}

/// Formats `n` in decimal.
pub fn fmt_u32(n: u32) -> (s: String)
    ensures
        s@ == dec_digits(n as nat),
    decreases n,
{
    if n < 10 {
        let mut s = String::new();
        s.append(digit_str(n));
        proof {
            assert(s@ =~= dec_digits(n as nat));
        }
        s
    } else {
        let mut s = fmt_u32(n / 10);
        s.append(digit_str(n % 10));
        proof {
            assert(s@ =~= dec_digits(n as nat));
        }
        s
    }
}

/// Formats a value counted in tenths with one decimal place.
pub fn fmt_deci(v: i32) -> (s: String)
    ensures
        s@ == deci_digits(v as int),
{
    let mag: u32 = if v < 0 {
        (-(v as i64)) as u32
    } else {
        v as u32
    };
    let mut s = String::new();
    if v < 0 {
        proof {
            reveal_strlit("-");
        }
        s.append("-");
    }
    let units = fmt_u32(mag / 10);
    s.append(units.as_str());
    proof {
        reveal_strlit(".");
    }
    s.append(".");
    s.append(digit_str(mag % 10));
    proof {
        assert(s@ =~= deci_digits(v as int));
    }
    s
}

/// Formats a value counted in hundredths with two decimal places.
pub fn fmt_centi(v: i32) -> (s: String)
    ensures
        s@ == centi_digits(v as int),
{
    let mag: u32 = if v < 0 {
        (-(v as i64)) as u32
    } else {
        v as u32
    };
    let mut s = String::new();
    if v < 0 {
        proof {
            reveal_strlit("-");
        }
        s.append("-");
    }
    let units = fmt_u32(mag / 100);
    s.append(units.as_str());
    proof {
        reveal_strlit(".");
    }
    s.append(".");
    s.append(digit_str((mag / 10) % 10));
    s.append(digit_str(mag % 10));
    proof {
        assert(s@ =~= centi_digits(v as int));
    }
    s
}

} // verus!
