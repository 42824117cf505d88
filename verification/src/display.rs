//! The text of the readouts: whole numbers in decimal, zero-padded fields,
//! the running and last times, and the speed multiplier.

use crate::text::to_owned_string;
use vstd::prelude::*;
use vstd::string::StringExecFns;

verus! {

/// The decimal digit for `d` (taken modulo 10).
pub open spec fn digit_char(d: nat) -> char {
    let r: nat = d % 10;
    if r == 0 {
        '0'
    } else if r == 1 {
        '1'
    } else if r == 2 {
        '2'
    } else if r == 3 {
        '3'
    } else if r == 4 {
        '4'
    } else if r == 5 {
        '5'
    } else if r == 6 {
        '6'
    } else if r == 7 {
        '7'
    } else if r == 8 {
        '8'
    } else {
        '9'
    }
}

/// The value of a decimal digit.
pub open spec fn digit_value(c: char) -> nat {
    if c == '1' {
        1
    } else if c == '2' {
        2
    } else if c == '3' {
        3
    } else if c == '4' {
        4
    } else if c == '5' {
        5
    } else if c == '6' {
        6
    } else if c == '7' {
        7
    } else if c == '8' {
        8
    } else if c == '9' {
        9
    } else {
        0
    }
}

/// `n` written in decimal, without leading zeros (`0` is `"0"`).
pub open spec fn decimal(n: nat) -> Seq<char>
    decreases n,
{
    if n < 10 {
        seq![digit_char(n)]
    } else {
        decimal(n / 10).push(digit_char(n % 10))
    }
}

/// The number that a string of decimal digits stands for.
pub open spec fn decimal_value(s: Seq<char>) -> nat
    decreases s.len(),
{
    if s.len() == 0 {
        0
    } else {
        decimal_value(s.drop_last()) * 10 + digit_value(s.last())
    }
}

/// `s` with zeros put in front up to `width` characters.
pub open spec fn zero_padded(s: Seq<char>, width: nat) -> Seq<char> {
    if s.len() >= width {
        s
    } else {
        Seq::new((width - s.len()) as nat, |i: int| '0') + s
    }
}

/// The text of a time: whole seconds, a point, and the hundredths of a second
/// in at least two digits.
pub open spec fn time_text(seconds: nat, milliseconds: nat) -> Seq<char> {
    decimal(seconds) + seq!['.'] + zero_padded(decimal(milliseconds / 10), 2)
}

/// The single-character string of a decimal digit.
fn digit_str(d: u64) -> (s: &'static str)
    requires
        d < 10,
    ensures
        s@ == seq![digit_char(d as nat)],
{
    proof {
        reveal_strlit("0");
        reveal_strlit("1");
        reveal_strlit("2");
        reveal_strlit("3");
        reveal_strlit("4");
        reveal_strlit("5");
        reveal_strlit("6");
        reveal_strlit("7");
        reveal_strlit("8");
        reveal_strlit("9");
    }
    let s = match d {
        0 => "0",
        1 => "1",
        2 => "2",
        3 => "3",
        4 => "4",
        5 => "5",
        6 => "6",
        7 => "7",
        8 => "8",
        _ => "9",
    };
    assert(s@ =~= seq![digit_char(d as nat)]);
    s
}

/// `n` written in decimal.
pub fn decimal_string(n: u64) -> (s: String)
    ensures
        s@ == decimal(n as nat),
    decreases n,
{
    if n < 10 {
        to_owned_string(digit_str(n))
    } else {
        let mut s = decimal_string(n / 10);
        s.append(digit_str(n % 10));
        s
    }
}

/// `n` in decimal, with zeros put in front up to `width` characters.
pub fn zero_padded_string(n: u64, width: usize) -> (s: String)
    ensures
        s@ == zero_padded(decimal(n as nat), width as nat),
{
    let digits = decimal_string(n);
    let len: usize = vstd::string::StrSliceExecFns::unicode_len(digits.as_str());
    if len >= width {
        return digits;
    }
    let mut s = String::new();
    let mut i: usize = 0;
    while i < width - len
        invariant
            i <= width - len,
            len < width,
            s@ == Seq::new(i as nat, |k: int| '0'),
        decreases width - len - i,
    {
        s.append("0");
        proof {
            reveal_strlit("0");
        }
        assert(s@ =~= Seq::new((i + 1) as nat, |k: int| '0'));
        i = i + 1;
    }
    s.append(digits.as_str());
    s
}

/// The running time as shown: seconds, a point, two-digit hundredths.
pub fn time_string(seconds: u64, milliseconds: u32) -> (s: String)
    ensures
        s@ == time_text(seconds as nat, milliseconds as nat),
{
    let mut s = decimal_string(seconds);
    s.append(".");
    s.append(zero_padded_string((milliseconds / 10) as u64, 2).as_str());
    proof {
        reveal_strlit(".");
    }
    s
}

/// The last time as shown: `last: ` and the time.
pub fn last_time_string(seconds: u64, milliseconds: u32) -> (s: String)
    ensures
        s@ == "last: "@ + time_text(seconds as nat, milliseconds as nat),
{
    let mut s = to_owned_string("last: ");
    s.append(time_string(seconds, milliseconds).as_str());
    s
}

/// The speed multiplier as shown: the percentage in at least three digits and
/// a percent sign.
pub fn multiplier_string(percent: u32) -> (s: String)
    ensures
        s@ == zero_padded(decimal(percent as nat), 3) + "%"@,
{
    let mut s = zero_padded_string(percent as u64, 3);
    s.append("%");
    s
}

/// Decimal text reads back as the number it was written from.
pub proof fn lemma_decimal_reads_back(n: nat)
    ensures
        decimal_value(decimal(n)) == n,
    decreases n,
{
    assert(digit_value(digit_char(n)) == n % 10);
    if n < 10 {
        assert(decimal(n).drop_last() =~= Seq::<char>::empty());
        assert(decimal_value(Seq::<char>::empty()) == 0);
        assert(decimal(n).last() == digit_char(n));
    } else {
        lemma_decimal_reads_back(n / 10);
        assert(decimal(n).drop_last() =~= decimal(n / 10));
        assert(decimal(n).last() == digit_char(n % 10));
        assert(digit_value(digit_char(n % 10)) == n % 10);
        assert((n / 10) * 10 + n % 10 == n);
    }
}

/// Leading zeros do not change the number a string of digits stands for.
pub proof fn lemma_zeros_add_nothing(s: Seq<char>, width: nat)
    ensures
        decimal_value(zero_padded(s, width)) == decimal_value(s),
    decreases s.len(),
{
    if s.len() < width {
        let z = Seq::new((width - s.len()) as nat, |i: int| '0');
        lemma_leading_zeros(z, s);
    }
}

proof fn lemma_all_zeros(z: Seq<char>)
    requires
        forall|i: int| 0 <= i < z.len() ==> z[i] == '0',
    ensures
        decimal_value(z) == 0,
    decreases z.len(),
{
    if z.len() > 0 {
        lemma_all_zeros(z.drop_last());
    }
}

proof fn lemma_leading_zeros(z: Seq<char>, s: Seq<char>)
    requires
        forall|i: int| 0 <= i < z.len() ==> z[i] == '0',
    ensures
        decimal_value(z + s) == decimal_value(s),
    decreases s.len(),
{
    if s.len() == 0 {
        assert(z + s =~= z);
        lemma_all_zeros(z);
    } else {
        lemma_leading_zeros(z, s.drop_last());
        assert((z + s).drop_last() =~= z + s.drop_last());
    }
}

/// The shown time is the whole seconds, a point, and a fraction whose digits
/// stand for the hundredths; below a second's worth of milliseconds the
/// fraction has exactly two digits.
pub proof fn lemma_time_text_reads_back(seconds: nat, milliseconds: nat)
    ensures
        time_text(seconds, milliseconds) == decimal(seconds) + seq!['.'] + zero_padded(
            decimal(milliseconds / 10),
            2,
        ),
        decimal_value(decimal(seconds)) == seconds,
        decimal_value(zero_padded(decimal(milliseconds / 10), 2)) == milliseconds / 10,
        milliseconds < 1000 ==> zero_padded(decimal(milliseconds / 10), 2).len() == 2,
{
    lemma_decimal_reads_back(seconds);
    lemma_decimal_reads_back(milliseconds / 10);
    lemma_zeros_add_nothing(decimal(milliseconds / 10), 2);
    if milliseconds < 1000 {
        let c: nat = milliseconds / 10;
        if c >= 10 {
            assert(decimal(c / 10).len() == 1);
        }
    }
}

} // verus!
