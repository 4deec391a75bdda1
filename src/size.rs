use vstd::prelude::*;
use crate::names::string_from_chars;

verus! {

/// How many times a size is divided by 1024 for display: as often as it
/// stays at least 1024, at most three times (GB).
pub open spec fn unit_power(size: nat) -> nat {
    if size >= 1024 * 1024 * 1024 {
        3
    } else if size >= 1024 * 1024 {
        2
    } else if size >= 1024 {
        1
    } else {
        0
    }
}

pub open spec fn pow1024(k: nat) -> nat {
    if k == 0 {
        1
    } else if k == 1 {
        1024
    } else if k == 2 {
        1024 * 1024
    } else {
        1024 * 1024 * 1024
    }
}

/// The size in its unit, in tenths, rounded to the nearest tenth, a tie
/// to the even one.
pub open spec fn size_tenths(size: nat) -> nat {
    let d = pow1024(unit_power(size));
    let q = size * 10 / d;
    let rem = size * 10 % d;
    if 2 * rem > d || (2 * rem == d && q % 2 == 1) {
        q + 1
    } else {
        q
    }
}

pub open spec fn digit_char(d: nat) -> char {
    if d == 0 { '0' }
    else if d == 1 { '1' }
    else if d == 2 { '2' }
    else if d == 3 { '3' }
    else if d == 4 { '4' }
    else if d == 5 { '5' }
    else if d == 6 { '6' }
    else if d == 7 { '7' }
    else if d == 8 { '8' }
    else { '9' }
}

/// The decimal digits of `n`, without leading zeros.
pub open spec fn decimal(n: nat) -> Seq<char>
    decreases n,
{
    if n < 10 {
        seq![digit_char(n)]
    } else {
        decimal(n / 10).push(digit_char(n % 10))
    }
}

pub open spec fn unit_name(k: nat) -> Seq<char> {
    if k == 0 {
        seq!['B']
    } else if k == 1 {
        seq!['K', 'B']
    } else if k == 2 {
        seq!['M', 'B']
    } else {
        seq!['G', 'B']
    }
}

/// A byte count as shown in a listing: `0 B`, or the size in B, KB, MB or
/// GB with one decimal.
pub open spec fn size_text(size: nat) -> Seq<char> {
    if size == 0 {
        seq!['0', ' ', 'B']
    } else {
        let t = size_tenths(size);
        decimal(t / 10) + seq!['.', digit_char(t % 10), ' '] + unit_name(unit_power(size))
    }
}

fn digit(d: u128) -> (c: char)
    requires
        d < 10,
    ensures
        c == digit_char(d as nat),
{
    if d == 0 { '0' }
    else if d == 1 { '1' }
    else if d == 2 { '2' }
    else if d == 3 { '3' }
    else if d == 4 { '4' }
    else if d == 5 { '5' }
    else if d == 6 { '6' }
    else if d == 7 { '7' }
    else if d == 8 { '8' }
    else { '9' }
}

fn push_decimal(n: u128, out: &mut Vec<char>)
    ensures
        final(out)@ == old(out)@ + decimal(n as nat),
    decreases n,
{
    if n < 10 {
        out.push(digit(n));
        assert(final(out)@ =~= old(out)@ + decimal(n as nat));
    } else {
        push_decimal(n / 10, out);
        out.push(digit(n % 10));
        assert(final(out)@ =~= old(out)@ + decimal(n as nat));
    }
}

/// Formats a byte count for display.
pub fn format_file_size(size: u64) -> (r: String)
    ensures
        r@ == size_text(size as nat),
{
    let mut out: Vec<char> = Vec::new();
    if size == 0 {
        out.push('0');
        out.push(' ');
        out.push('B');
        assert(out@ =~= size_text(0));
        return string_from_chars(&out);
    }
    let (k, d): (u128, u128) = if size >= 1024 * 1024 * 1024 {
        (3, 1024 * 1024 * 1024)
    } else if size >= 1024 * 1024 {
        (2, 1024 * 1024)
    } else if size >= 1024 {
        (1, 1024)
    } else {
        (0, 1)
    };
    assert(k == unit_power(size as nat) && d == pow1024(k as nat));
    let scaled: u128 = (size as u128) * 10;
    let q = scaled / d;
    let rem = scaled % d;
    let t: u128 = if 2 * rem > d || (2 * rem == d && q % 2 == 1) {
        q + 1
    } else {
        q
    };
    assert(t == size_tenths(size as nat));
    push_decimal(t / 10, &mut out);
    out.push('.');
    out.push(digit(t % 10));
    out.push(' ');
    if k == 0 {
        out.push('B');
    } else {
        if k == 1 {
            out.push('K');
        } else if k == 2 {
            out.push('M');
        } else {
            out.push('G');
        }
        out.push('B');
    }
    assert(out@ =~= size_text(size as nat));
    string_from_chars(&out)
}

} // verus!
