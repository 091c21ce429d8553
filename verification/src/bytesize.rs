//! Rendering a byte count as a short metric text such as `1.50KB`.
//!
//! The scaled value keeps two decimal digits, truncated towards zero.

use vstd::prelude::*;
use vstd::string::StringExecFns;

verus! {

/// The decimal digit character of `d`.
pub open spec fn digit_char(d: nat) -> char
    recommends
        d < 10,
{
    if d == 0 {
        '0'
    } else if d == 1 {
        '1'
    } else if d == 2 {
        '2'
    } else if d == 3 {
        '3'
    } else if d == 4 {
        '4'
    } else if d == 5 {
        '5'
    } else if d == 6 {
        '6'
    } else if d == 7 {
        '7'
    } else if d == 8 {
        '8'
    } else {
        '9'
    }
}

/// The decimal digits of `n`, most significant first.
pub open spec fn dec_digits(n: nat) -> Seq<char>
    decreases n,
{
    if n < 10 {
        seq![digit_char(n)]
    } else {
        dec_digits(n / 10).push(digit_char(n % 10))
    }
}

/// The divisor that scales `n` bytes into its metric unit.
pub open spec fn metric_divisor(n: nat) -> nat {
    if n < 1000 {
        1
    } else if n < 1000000 {
        1000
    } else if n < 1000000000 {
        1000000
    } else if n < 1000000000000 {
        1000000000
    } else {
        1000000000000
    }
}

/// The metric unit letter of `n` bytes, empty below one kilobyte.
pub open spec fn metric_unit(n: nat) -> Seq<char> {
    if n < 1000 {
        Seq::empty()
    } else if n < 1000000 {
        seq!['K']
    } else if n < 1000000000 {
        seq!['M']
    } else if n < 1000000000000 {
        seq!['G']
    } else {
        seq!['T']
    }
}

/// The metric byte-size text of `n`: the scaled value with two decimal
/// digits, the unit letter, and `B`.
pub open spec fn byte_size_text(n: nat) -> Seq<char> {
    let scaled = n * 100 / metric_divisor(n);
    dec_digits(scaled / 100) + seq!['.', digit_char(scaled % 100 / 10), digit_char(scaled % 10)]
        + metric_unit(n) + seq!['B']
}

/// The one-character text of a decimal digit.
fn digit_str(d: u64) -> (s: &'static str)
    requires
        d < 10,
    ensures
        s@ == seq![digit_char(d as nat)],
{
    proof {
        reveal_strlit("0");
        reveal_strlit("1");
        reveal_strlit("2");
        reveal_strlit("3");
        reveal_strlit("4");
        reveal_strlit("5");
        reveal_strlit("6");
        reveal_strlit("7");
        reveal_strlit("8");
        reveal_strlit("9");
        assert(("0")@ =~= seq!['0']);
        assert(("1")@ =~= seq!['1']);
        assert(("2")@ =~= seq!['2']);
        assert(("3")@ =~= seq!['3']);
        assert(("4")@ =~= seq!['4']);
        assert(("5")@ =~= seq!['5']);
        assert(("6")@ =~= seq!['6']);
        assert(("7")@ =~= seq!['7']);
        assert(("8")@ =~= seq!['8']);
        assert(("9")@ =~= seq!['9']);
    }
    match d {
        0 => "0",
        1 => "1",
        2 => "2",
        3 => "3",
        4 => "4",
        5 => "5",
        6 => "6",
        7 => "7",
        8 => "8",
        _ => "9",
    }
}

/// Append the decimal digits of `n` to `out`.
fn push_dec(out: &mut String, n: u64)
    ensures
        final(out)@ == old(out)@ + dec_digits(n as nat),
    decreases n,
{
    if n < 10 {
        out.append(digit_str(n));
    } else {
        push_dec(out, n / 10);
        out.append(digit_str(n % 10));
        proof {
            assert(old(out)@ + dec_digits((n / 10) as nat) + seq![digit_char((n % 10) as nat)]
                =~= old(out)@ + dec_digits(n as nat));
        }
    }
}

/// Render a byte count with its metric unit and two decimal digits,
/// truncated: `512` gives `512.00B`, `1500` gives `1.50KB`.
pub fn conv_b(bytes: u64) -> (r: String)
    ensures
        r@ == byte_size_text(bytes as nat),
{
    let scaled: u64;
    let unit: &'static str;
    if bytes < 1000 {
        scaled = bytes * 100;
        unit = "";
    } else if bytes < 1_000_000 {
        scaled = bytes * 100 / 1000;
        unit = "K";
    } else if bytes < 1_000_000_000 {
        scaled = bytes * 100 / 1_000_000;
        unit = "M";
    } else if bytes < 1_000_000_000_000 {
        scaled = bytes * 100 / 1_000_000_000;
        unit = "G";
    } else {
        let wide: u128 = (bytes as u128) * 100 / 1_000_000_000_000;
        assert(wide <= u64::MAX as u128);
        scaled = wide as u64;
        unit = "T";
    }
    proof {
        reveal_strlit("");
        reveal_strlit("K");
        reveal_strlit("M");
        reveal_strlit("G");
        reveal_strlit("T");
        reveal_strlit(".");
        reveal_strlit("B");
        assert(unit@ =~= metric_unit(bytes as nat));
        assert(scaled as nat == (bytes as nat) * 100 / metric_divisor(bytes as nat));
    }
    let mut out = String::new();
    push_dec(&mut out, scaled / 100);
    out.append(".");
    out.append(digit_str(scaled % 100 / 10));
    out.append(digit_str(scaled % 10));
    out.append(unit);
    out.append("B");
    proof {
        assert((".")@ =~= seq!['.']);
        assert(("B")@ =~= seq!['B']);
        assert(out@ =~= byte_size_text(bytes as nat));
    }
    out
}

} // verus!
