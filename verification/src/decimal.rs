use vstd::prelude::*;
use vstd::string::StringExecFns;

verus! {

/// The character of one decimal digit.
pub open spec fn digit(d: int) -> char {
    if d == 0 {
        '0'
    } else if d == 1 {
        '1'
    } else if d == 2 {
        '2'
    } else if d == 3 {
        '3'
    } else if d == 4 {
        '4'
    } else if d == 5 {
        '5'
    } else if d == 6 {
        '6'
    } else if d == 7 {
        '7'
    } else if d == 8 {
        '8'
    } else {
        '9'
    }
}

/// The decimal digits of `n`, most significant first, without leading zeros.
pub open spec fn decimal(n: nat) -> Seq<char>
    decreases n,
{
    if n < 10 {
        seq![digit(n as int)]
    } else {
        decimal(n / 10).push(digit((n % 10) as int))
    }
}

/// A count of hundredths written with two decimals: `45000` is `450.00`.
pub open spec fn hundredths(v: nat) -> Seq<char> {
    decimal(v / 100).push('.').push(digit((v % 100 / 10) as int)).push(digit((v % 10) as int))
}

/// A signed count of hundredths; a minus sign goes before what is below zero.
pub open spec fn signed_hundredths(v: int) -> Seq<char> {
    if v < 0 {
        seq!['-'] + hundredths((-v) as nat)
    } else {
        hundredths(v as nat)
    }
}

fn digit_str(d: u8) -> (s: &'static str)
    requires
        d < 10,
    ensures
        s@ == seq![digit(d as int)],
{
    proof {
        reveal_strlit("0");
        reveal_strlit("1");
        reveal_strlit("2");
        reveal_strlit("3");
        reveal_strlit("4");
        reveal_strlit("5");
        reveal_strlit("6");
        reveal_strlit("7");
        reveal_strlit("8");
        reveal_strlit("9");
    }
    let s = if d == 0 {
        "0"
    } else if d == 1 {
        "1"
    } else if d == 2 {
        "2"
    } else if d == 3 {
        "3"
    } else if d == 4 {
        "4"
    } else if d == 5 {
        "5"
    } else if d == 6 {
        "6"
    } else if d == 7 {
        "7"
    } else if d == 8 {
        "8"
    } else {
        "9"
    };
    assert(s@ =~= seq![digit(d as int)]);
    s
}

/// Appends the decimal digits of `n` to `out`.
pub fn push_decimal(out: &mut String, n: u64)
    ensures
        final(out)@ == old(out)@ + decimal(n as nat),
    decreases n,
{
    if n >= 10 {
        push_decimal(out, n / 10);
    }
    out.append(digit_str((n % 10) as u8));
    assert(out@ =~= old(out)@ + decimal(n as nat));
}

/// Appends `v` hundredths, written with two decimals, to `out`.
pub fn push_hundredths(out: &mut String, v: u64)
    ensures
        final(out)@ == old(out)@ + hundredths(v as nat),
{
    proof {
        reveal_strlit(".");
    }
    push_decimal(out, v / 100);
    out.append(".");
    out.append(digit_str((v % 100 / 10) as u8));
    out.append(digit_str((v % 10) as u8));
    assert(out@ =~= old(out)@ + hundredths(v as nat));
}

/// Appends a signed count of hundredths, written with two decimals, to `out`.
pub fn push_signed_hundredths(out: &mut String, v: i64)
    ensures
        final(out)@ == old(out)@ + signed_hundredths(v as int),
{
    if v < 0 {
        proof {
            reveal_strlit("-");
        }
        out.append("-");
        let m: u64 = if v == i64::MIN {
            9223372036854775808u64
        } else {
            (-v) as u64
        };
        push_hundredths(out, m);
        assert(out@ =~= old(out)@ + signed_hundredths(v as int));
    } else {
        push_hundredths(out, v as u64);
    }
}

} // verus!
