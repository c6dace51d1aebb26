//! Rendering numbers as decimal text, with exact character-level contracts.

use vstd::prelude::*;
use vstd::string::StringExecFns;

use crate::fixed::{abs_i, Dec};

verus! {

/// The character for one decimal digit.
pub open spec fn spec_digit_char(d: int) -> char {
    if d == 0 {
        '0'
    } else if d == 1 {
        '1'
    } else if d == 2 {
        '2'
    } else if d == 3 {
        '3'
    } else if d == 4 {
        '4'
    } else if d == 5 {
        '5'
    } else if d == 6 {
        '6'
    } else if d == 7 {
        '7'
    } else if d == 8 {
        '8'
    } else {
        '9'
    }
}

/// The decimal digits of a positive number, most significant first
/// (empty for zero and below).
pub open spec fn spec_nat_digits(n: int) -> Seq<char>
    decreases n,
{
    if n <= 0 {
        Seq::empty()
    } else {
        spec_nat_digits(n / 10).push(spec_digit_char(n % 10))
    }
}

/// The decimal rendering of an unsigned number.
pub open spec fn spec_u64_string(n: int) -> Seq<char> {
    if n == 0 {
        seq!['0']
    } else {
        spec_nat_digits(n)
    }
}

/// The decimal rendering of a signed number.
pub open spec fn spec_i64_string(n: int) -> Seq<char> {
    if n < 0 {
        seq!['-'] + spec_u64_string(-n)
    } else {
        spec_u64_string(n)
    }
}

/// The rendering of a fixed-point value: optional sign, the whole part,
/// a point, and all six fractional digits.
pub open spec fn spec_dec_string(v: int) -> Seq<char> {
    let a = abs_i(v);
    let sign: Seq<char> = if v < 0 {
        seq!['-']
    } else {
        Seq::empty()
    };
    sign + spec_u64_string(a / 1000000) + seq!['.'] + spec_frac6(a % 1000000)
}

/// Six fractional digits, most significant first, of a value below 10^6.
pub open spec fn spec_frac6(f: int) -> Seq<char> {
    seq![
        spec_digit_char((f / 100000) % 10),
        spec_digit_char((f / 10000) % 10),
        spec_digit_char((f / 1000) % 10),
        spec_digit_char((f / 100) % 10),
        spec_digit_char((f / 10) % 10),
        spec_digit_char(f % 10),
    ]
}

/// The digit characters of a digit list, reversed (the list stores the
/// least significant digit first).
pub open spec fn spec_rev_chars(s: Seq<u64>) -> Seq<char> {
    Seq::new(s.len(), |i: int| spec_digit_char(s[s.len() - 1 - i] as int))
}

/// The single-character string for one digit.
fn digit_str(d: u64) -> (r: &'static str)
    requires
        d < 10,
    ensures
        r@ == seq![spec_digit_char(d as int)],
{
    proof {
        reveal_strlit("0");
        reveal_strlit("1");
        reveal_strlit("2");
        reveal_strlit("3");
        reveal_strlit("4");
        reveal_strlit("5");
        reveal_strlit("6");
        reveal_strlit("7");
        reveal_strlit("8");
        reveal_strlit("9");
    }
    let r = match d {
        0 => "0",
        1 => "1",
        2 => "2",
        3 => "3",
        4 => "4",
        5 => "5",
        6 => "6",
        7 => "7",
        8 => "8",
        _ => "9",
    };
    proof {
        assert(r@ =~= seq![spec_digit_char(d as int)]);
    }
    r
}

/// Render an unsigned number in decimal.
pub fn u64_to_string(n: u64) -> (r: String)
    ensures
        r@ == spec_u64_string(n as int),
{
    if n == 0 {
        proof {
            reveal_strlit("0");
            assert("0"@ =~= seq!['0']);
        }
        return "0".to_owned();
    }

    let mut digits: Vec<u64> = Vec::new();
    let mut cur: u64 = n;
    while cur > 0
        invariant
            forall|k: int| 0 <= k < digits@.len() ==> digits@[k] < 10,
            spec_nat_digits(n as int) =~= spec_nat_digits(cur as int) + spec_rev_chars(digits@),
        decreases cur,
    {
        let ghost prev = cur;
        let ghost pre = digits@;
        let d = cur % 10;
        digits.push(d);
        cur = cur / 10;
        proof {
            assert(spec_rev_chars(pre.push(d)) =~= seq![spec_digit_char(d as int)]
                + spec_rev_chars(pre));
            assert(spec_nat_digits(prev as int) == spec_nat_digits(cur as int).push(
                spec_digit_char(d as int),
            ));
            assert(spec_nat_digits(cur as int).push(spec_digit_char(d as int))
                + spec_rev_chars(pre) =~= spec_nat_digits(cur as int) + (seq![
                spec_digit_char(d as int),
            ] + spec_rev_chars(pre)));
        }
    }

    let mut s = String::new();
    let ghost all = spec_rev_chars(digits@);
    proof {
        assert(spec_nat_digits(n as int) =~= all);
    }
    let mut i: usize = digits.len();
    while i > 0
        invariant
            i <= digits@.len(),
            forall|k: int| 0 <= k < digits@.len() ==> digits@[k] < 10,
            all == spec_rev_chars(digits@),
            s@ =~= all.take(digits@.len() - i as int),
        decreases i,
    {
        i -= 1;
        let piece = digit_str(digits[i]);
        s.append(piece);
        proof {
            assert(all[digits@.len() - 1 - i as int] == spec_digit_char(
                digits@[i as int] as int,
            ));
            assert(s@ =~= all.take(digits@.len() - i as int));
        }
    }
    proof {
        assert(all.take(digits@.len() as int) =~= all);
    }
    s
}

/// Render a signed number in decimal.
pub fn i64_to_string(n: i64) -> (r: String)
    ensures
        r@ == spec_i64_string(n as int),
{
    if n < 0 {
        let a: u64 = (-(n as i128)) as u64;
        let mut s = String::new();
        proof {
            reveal_strlit("-");
        }
        s.append("-");
        let rest = u64_to_string(a);
        s.append(rest.as_str());
        proof {
            assert(s@ =~= seq!['-'] + spec_u64_string(a as int));
        }
        s
    } else {
        u64_to_string(n as u64)
    }
}

/// Render a fixed-point value: sign, whole part, point, six fractional
/// digits.
pub fn dec_to_string(d: &Dec) -> (r: String)
    ensures
        r@ == spec_dec_string(d@),
{
    proof {
        use_type_invariant(*d);
    }
    let m: i128 = d.micro();
    let a: u128 = if m < 0 {
        (-m) as u128
    } else {
        m as u128
    };
    let whole: u64 = (a / 1000000) as u64;
    let frac: u64 = (a % 1000000) as u64;

    let mut s = String::new();
    if m < 0 {
        proof {
            reveal_strlit("-");
        }
        s.append("-");
    }
    let wpart = u64_to_string(whole);
    s.append(wpart.as_str());
    proof {
        reveal_strlit(".");
    }
    s.append(".");
    s.append(digit_str((frac / 100000) % 10));
    s.append(digit_str((frac / 10000) % 10));
    s.append(digit_str((frac / 1000) % 10));
    s.append(digit_str((frac / 100) % 10));
    s.append(digit_str((frac / 10) % 10));
    s.append(digit_str(frac % 10));
    proof {
        assert(s@ =~= spec_dec_string(d@));
    }
    s
}


/// The rendering of a fixed-point value truncated to two fractional
/// digits: the full rendering with its last four digits cut off.
pub open spec fn spec_dec_string_2dp(v: int) -> Seq<char> {
    spec_dec_string(v).take(spec_dec_string(v).len() - 4)
}

/// A rendered unsigned number has at least one character.
proof fn lemma_u64_string_nonempty(n: int)
    requires
        n >= 0,
    ensures
        spec_u64_string(n).len() >= 1,
{
    if n > 0 {
        assert(spec_nat_digits(n) == spec_nat_digits(n / 10).push(spec_digit_char(n % 10)));
    }
}

/// Render a fixed-point value with two fractional digits (truncated).
pub fn dec_to_string_2dp(d: &Dec) -> (r: String)
    ensures
        r@ == spec_dec_string_2dp(d@),
{
    proof {
        use_type_invariant(*d);
        lemma_u64_string_nonempty(abs_i(d@) / 1000000);
    }
    let full = dec_to_string(d);
    let n = full.as_str().unicode_len();
    full.as_str().substring_char(0, n - 4).to_owned()
}

} // verus!