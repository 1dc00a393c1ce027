//! Rendering of numbers and flags into log text.

use vstd::prelude::*;

verus! {

/// The character of a decimal digit.
pub open spec fn digit(n: nat) -> char {
    if n == 0 {
        '0'
    } else if n == 1 {
        '1'
    } else if n == 2 {
        '2'
    } else if n == 3 {
        '3'
    } else if n == 4 {
        '4'
    } else if n == 5 {
        '5'
    } else if n == 6 {
        '6'
    } else if n == 7 {
        '7'
    } else if n == 8 {
        '8'
    } else {
        '9'
    }
}

/// A natural number in decimal, without leading zeros.
pub open spec fn decimal(n: nat) -> Seq<char>
    decreases n,
{
    if n < 10 {
        seq![digit(n)]
    } else {
        decimal(n / 10).push(digit(n % 10))
    }
}

/// An integer in decimal, with a minus sign where it is negative.
pub open spec fn signed_decimal(n: int) -> Seq<char> {
    if n < 0 {
        seq!['-'] + decimal((-n) as nat)
    } else {
        decimal(n as nat)
    }
}

/// A number of zeros.
pub open spec fn zeros(n: nat) -> Seq<char> {
    Seq::new(n, |i: int| '0')
}

/// An integer in decimal, filled with zeros behind its sign up to a width.
pub open spec fn padded(n: int, width: nat) -> Seq<char> {
    let sign = if n < 0 {
        seq!['-']
    } else {
        Seq::empty()
    };
    let digits = decimal(if n < 0 {
        (-n) as nat
    } else {
        n as nat
    });
    if sign.len() + digits.len() < width {
        sign + zeros((width - sign.len() - digits.len()) as nat) + digits
    } else {
        sign + digits
    }
}

/// A flag as a word.
pub open spec fn flag(b: bool) -> Seq<char> {
    if b {
        "true"@
    } else {
        "false"@
    }
}

fn digit_str(n: u64) -> (s: &'static str)
    requires
        n < 10,
    ensures
        s@ == seq![digit(n as nat)],
{
    proof {
        reveal_strlit("0");
        reveal_strlit("1");
        reveal_strlit("2");
        reveal_strlit("3");
        reveal_strlit("4");
        reveal_strlit("5");
        reveal_strlit("6");
        reveal_strlit("7");
        reveal_strlit("8");
        reveal_strlit("9");
    }
    let s = if n == 0 {
        "0"
    } else if n == 1 {
        "1"
    } else if n == 2 {
        "2"
    } else if n == 3 {
        "3"
    } else if n == 4 {
        "4"
    } else if n == 5 {
        "5"
    } else if n == 6 {
        "6"
    } else if n == 7 {
        "7"
    } else if n == 8 {
        "8"
    } else {
        "9"
    };
    assert(s@ =~= seq![digit(n as nat)]);
    s
}

/// Appends a number in decimal, whatever its size.
pub fn push_wide(out: &mut String, n: u128)
    ensures
        final(out)@ == old(out)@ + decimal(n as nat),
    decreases n,
{
    if n < 10 {
        out.append(digit_str(n as u64));
    } else {
        push_wide(out, n / 10);
        out.append(digit_str((n % 10) as u64));
        assert(out@ =~= old(out)@ + decimal(n as nat));
    }
}

/// Appends a number in decimal.
pub fn push_decimal(out: &mut String, n: u64)
    ensures
        final(out)@ == old(out)@ + decimal(n as nat),
{
    push_wide(out, n as u128);
}

/// The absolute value of an integer.
fn absolute(n: i64) -> (size: u64)
    ensures
        size == (if n < 0 {
            -n
        } else {
            n as int
        }),
{
    if n < 0 {
        (-(n as i128)) as u64
    } else {
        n as u64
    }
}

/// Appends an integer in decimal.
pub fn push_signed(out: &mut String, n: i64)
    ensures
        final(out)@ == old(out)@ + signed_decimal(n as int),
{
    if n < 0 {
        proof {
            reveal_strlit("-");
        }
        out.append("-");
        push_decimal(out, absolute(n));
        assert(out@ =~= old(out)@ + signed_decimal(n as int));
    } else {
        push_decimal(out, n as u64);
    }
}

/// The number of decimal digits of a number.
fn decimal_len(n: u64) -> (len: u64)
    ensures
        len == decimal(n as nat).len(),
        1 <= len <= 1 + n,
    decreases n,
{
    if n < 10 {
        1
    } else {
        1 + decimal_len(n / 10)
    }
}

/// Appends an integer in decimal, filled with zeros behind its sign up to a width.
pub fn push_padded(out: &mut String, n: i64, width: u64)
    ensures
        final(out)@ == old(out)@ + padded(n as int, width as nat),
{
    let size: u64 = absolute(n);
    let digits: u64 = decimal_len(size);
    let ghost sign = if n < 0 {
        seq!['-']
    } else {
        Seq::empty()
    };
    let mut used: u64 = 0;
    if n < 0 {
        proof {
            reveal_strlit("-");
        }
        out.append("-");
        used = 1;
    }
    assert(out@ =~= old(out)@ + sign);
    let ghost before = out@;
    let fill: u64 = if width > used && width - used > digits {
        width - used - digits
    } else {
        0
    };
    let mut i: u64 = 0;
    while i < fill
        invariant
            i <= fill,
            out@ == before + zeros(i as nat),
        decreases fill - i,
    {
        proof {
            reveal_strlit("0");
        }
        out.append("0");
        i = i + 1;
        assert(out@ =~= before + zeros(i as nat));
    }
    push_decimal(out, size);
    assert(out@ =~= old(out)@ + padded(n as int, width as nat));
}

/// Appends a flag as a word.
pub fn push_flag(out: &mut String, b: bool)
    ensures
        final(out)@ == old(out)@ + flag(b),
{
    if b {
        out.append("true");
    } else {
        out.append("false");
    }
}

} // verus!
