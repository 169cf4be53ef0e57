//! Field encoding: one typed scalar value to its canonical cell text.
//!
//! Booleans become `1`/`0`, monetary milliunit integers their exact signed
//! base-10 form, absent optional values the reserved NULL sentinel, and
//! present optional values their own encoding, unwrapped.

use vstd::prelude::*;

use crate::model::Cleared;
use crate::model::FlagColor;
use crate::model::Frequency;

verus! {

/// The reserved token written in place of any absent optional value.
pub open spec fn null_cell() -> Seq<char> {
    seq!['\\', 'N']
}

/// Canonical cell text of a boolean column.
pub open spec fn bool_cell(b: bool) -> Seq<char> {
    if b {
        seq!['1']
    } else {
        seq!['0']
    }
}

/// The ASCII digit standing for one decimal digit value.
pub open spec fn digit_char(d: int) -> char {
    if d == 0 {
        '0'
    } else if d == 1 {
        '1'
    } else if d == 2 {
        '2'
    } else if d == 3 {
        '3'
    } else if d == 4 {
        '4'
    } else if d == 5 {
        '5'
    } else if d == 6 {
        '6'
    } else if d == 7 {
        '7'
    } else if d == 8 {
        '8'
    } else {
        '9'
    }
}

/// Decimal digits of a non-negative integer, most significant first.
pub open spec fn dec_nat(n: nat) -> Seq<char>
    decreases n,
{
    if n < 10 {
        seq![digit_char(n as int)]
    } else {
        dec_nat(n / 10).push(digit_char((n % 10) as int))
    }
}

/// Signed decimal text of an integer; monetary milliunit amounts are
/// exported exactly this way, sign-preserving, with no rounding.
pub open spec fn dec_int(n: int) -> Seq<char> {
    if n < 0 {
        seq!['-'] + dec_nat((-n) as nat)
    } else {
        dec_nat(n as nat)
    }
}

/// Cell of an optional free-text field: the value itself, or the sentinel.
pub open spec fn opt_text_cell(o: Option<Seq<char>>) -> Seq<char> {
    match o {
        Option::None => null_cell(),
        Option::Some(s) => s,
    }
}

/// A fresh string holding only the NULL sentinel.
pub fn null_string() -> (r: String)
    ensures
        r@ == null_cell(),
{
    proof {
        reveal_strlit("\\N");
    }
    let s = String::from_str("\\N");
    proof {
        assert(s@ =~= null_cell());
    }
    s
}

/// The boolean cell as a borrowed literal.
pub fn bool_str(b: bool) -> (r: &'static str)
    ensures
        r@ == bool_cell(b),
{
    proof {
        reveal_strlit("1");
        reveal_strlit("0");
    }
    let r = if b {
        "1"
    } else {
        "0"
    };
    proof {
        assert(r@ =~= bool_cell(b));
    }
    r
}

/// The single-digit cell of one decimal digit value.
fn digit_str(d: u64) -> (r: &'static str)
    requires
        d < 10,
    ensures
        r@ == seq![digit_char(d as int)],
{
    proof {
        reveal_strlit("0");
        reveal_strlit("1");
        reveal_strlit("2");
        reveal_strlit("3");
        reveal_strlit("4");
        reveal_strlit("5");
        reveal_strlit("6");
        reveal_strlit("7");
        reveal_strlit("8");
        reveal_strlit("9");
    }
    let r = if d == 0 {
        "0"
    } else if d == 1 {
        "1"
    } else if d == 2 {
        "2"
    } else if d == 3 {
        "3"
    } else if d == 4 {
        "4"
    } else if d == 5 {
        "5"
    } else if d == 6 {
        "6"
    } else if d == 7 {
        "7"
    } else if d == 8 {
        "8"
    } else {
        "9"
    };
    proof {
        assert(r@ =~= seq![digit_char(d as int)]);
    }
    r
}

/// Decimal text of an unsigned integer, most significant digit first.
pub fn encode_u64(n: u64) -> (r: String)
    ensures
        r@ == dec_nat(n as nat),
    decreases n,
{
    if n < 10 {
        String::from_str(digit_str(n))
    } else {
        let mut s = encode_u64(n / 10);
        let d = digit_str(n % 10);
        s.append(d);
        proof {
            assert(s@ =~= dec_nat(n as nat));
        }
        s
    }
}

/// Signed decimal text of a milliunit amount.
pub fn encode_i64(n: i64) -> (r: String)
    ensures
        r@ == dec_int(n as int),
{
    if n >= 0 {
        encode_u64(n as u64)
    } else {
        let wide: i128 = n as i128;
        let magnitude: u64 = (-wide) as u64;
        proof {
            reveal_strlit("-");
        }
        let mut s = String::from_str("-");
        let digits = encode_u64(magnitude);
        s.append(digits.as_str());
        proof {
            assert(s@ =~= dec_int(n as int));
        }
        s
    }
}

/// Canonical token of a cleared state; the mapping is total over the closed
/// vocabulary, with no fallback branch.
pub open spec fn cleared_token(c: Cleared) -> Seq<char> {
    match c {
        Cleared::Cleared => "cleared"@,
        Cleared::Uncleared => "uncleared"@,
        Cleared::Reconciled => "reconciled"@,
    }
}

/// Canonical token of a flag color.
pub open spec fn flag_color_token(f: FlagColor) -> Seq<char> {
    match f {
        FlagColor::Red => "red"@,
        FlagColor::Orange => "orange"@,
        FlagColor::Yellow => "yellow"@,
        FlagColor::Green => "green"@,
        FlagColor::Blue => "blue"@,
        FlagColor::Purple => "purple"@,
    }
}

/// Canonical token of a scheduling frequency.
pub open spec fn frequency_token(f: Frequency) -> Seq<char> {
    match f {
        Frequency::Never => "never"@,
        Frequency::Daily => "daily"@,
        Frequency::Weekly => "weekly"@,
        Frequency::EveryOtherWeek => "everyOtherWeek"@,
        Frequency::TwiceAMonth => "twiceAMonth"@,
        Frequency::Every4Weeks => "every4Weeks"@,
        Frequency::Monthly => "monthly"@,
        Frequency::EveryOtherMonth => "everyOtherMonth"@,
        Frequency::Every3Months => "every3Months"@,
        Frequency::Every4Months => "every4Months"@,
        Frequency::TwiceAYear => "twiceAYear"@,
        Frequency::Yearly => "yearly"@,
        Frequency::EveryOtherYear => "everyOtherYear"@,
    }
}

/// Cell of an optional flag color: its token, or the sentinel.
pub open spec fn opt_flag_cell(o: Option<FlagColor>) -> Seq<char> {
    match o {
        Option::None => null_cell(),
        Option::Some(f) => flag_color_token(f),
    }
}

/// The fixed token of a cleared state.
pub fn cleared_to_str(c: Cleared) -> (r: &'static str)
    ensures
        r@ == cleared_token(c),
{
    match c {
        Cleared::Cleared => "cleared",
        Cleared::Uncleared => "uncleared",
        Cleared::Reconciled => "reconciled",
    }
}

/// The fixed token of a flag color.
pub fn flag_color_to_str(f: FlagColor) -> (r: &'static str)
    ensures
        r@ == flag_color_token(f),
{
    match f {
        FlagColor::Red => "red",
        FlagColor::Orange => "orange",
        FlagColor::Yellow => "yellow",
        FlagColor::Green => "green",
        FlagColor::Blue => "blue",
        FlagColor::Purple => "purple",
    }
}

/// The fixed token of a scheduling frequency.
pub fn frequency_to_str(f: Frequency) -> (r: &'static str)
    ensures
        r@ == frequency_token(f),
{
    match f {
        Frequency::Never => "never",
        Frequency::Daily => "daily",
        Frequency::Weekly => "weekly",
        Frequency::EveryOtherWeek => "everyOtherWeek",
        Frequency::TwiceAMonth => "twiceAMonth",
        Frequency::Every4Weeks => "every4Weeks",
        Frequency::Monthly => "monthly",
        Frequency::EveryOtherMonth => "everyOtherMonth",
        Frequency::Every3Months => "every3Months",
        Frequency::Every4Months => "every4Months",
        Frequency::TwiceAYear => "twiceAYear",
        Frequency::Yearly => "yearly",
        Frequency::EveryOtherYear => "everyOtherYear",
    }
}

/// Cell text of an optional flag color.
pub fn encode_opt_flag(o: &Option<FlagColor>) -> (r: String)
    ensures
        r@ == opt_flag_cell(*o),
{
    match o {
        Option::None => null_string(),
        Option::Some(f) => String::from_str(flag_color_to_str(*f)),
    }
}

/// Cell text of an optional free-text field.
pub fn encode_opt_text(o: &Option<String>) -> (r: String)
    ensures
        r@ == opt_text_cell(o.deep_view()),
{
    match o {
        Option::None => null_string(),
        Option::Some(s) => s.clone(),
    }
}

} // verus!
