use vstd::prelude::*;

verus! {

/// The character for one decimal digit.
pub open spec fn digit_char(d: nat) -> char {
    if d == 0 {
        '0'
    } else if d == 1 {
        '1'
    } else if d == 2 {
        '2'
    } else if d == 3 {
        '3'
    } else if d == 4 {
        '4'
    } else if d == 5 {
        '5'
    } else if d == 6 {
        '6'
    } else if d == 7 {
        '7'
    } else if d == 8 {
        '8'
    } else {
        '9'
    }
}

/// The decimal digits of `n`, most significant first, with no leading zeros
/// (a single `'0'` for zero).
pub open spec fn dec_digits(n: nat) -> Seq<char>
    decreases n,
{
    if n < 10 {
        seq![digit_char(n)]
    } else {
        dec_digits(n / 10).push(digit_char(n % 10))
    }
}

/// The decimal rendering of a signed integer: a `'-'` sign for negative
/// values, followed by the digits of the magnitude.
pub open spec fn dec_str(n: int) -> Seq<char> {
    if n < 0 {
        seq!['-'] + dec_digits((-n) as nat)
    } else {
        dec_digits(n as nat)
    }
}

/// Renders `n` in decimal, exactly as `dec_str` describes.
pub fn to_decimal(n: i64) -> (r: String)
    ensures
        r@ == dec_str(n as int),
{
    let mut s = String::new();
    if n < 0 {
        s.append("-");
        proof {
            reveal_strlit("-");
            assert(s@ =~= seq!['-']);
        }
        let m: u64 = if n == i64::MIN {
            9223372036854775808u64
        } else {
            (-n) as u64
        };
        assert(m as int == -(n as int));
        push_digits(m, &mut s);
        proof {
            assert(s@ =~= dec_str(n as int));
        }
    } else {
        push_digits(n as u64, &mut s);
    }
    s
}

/// Appends the decimal digits of `m` to `out`.
pub(crate) fn push_digits(m: u64, out: &mut String)
    ensures
        final(out)@ == old(out)@ + dec_digits(m as nat),
    decreases m,
{
    if m >= 10 {
        proof {
            assert(m / 10 < m) by (nonlinear_arith)
                requires m >= 10;
        }
        push_digits(m / 10, out);
    }
    append_digit(m % 10, out);
    proof {
        if m >= 10 {
            assert(final(out)@ =~= old(out)@ + dec_digits(m as nat));
        } else {
            assert(final(out)@ =~= old(out)@ + dec_digits(m as nat));
        }
    }
}

/// Appends the single digit `d` to `out`.
fn append_digit(d: u64, out: &mut String)
    requires
        d < 10,
    ensures
        final(out)@ == old(out)@ + seq![digit_char(d as nat)],
{
    if d == 0 {
        out.append("0");
        proof { reveal_strlit("0"); assert(final(out)@ =~= old(out)@ + seq!['0']); }
    } else if d == 1 {
        out.append("1");
        proof { reveal_strlit("1"); assert(final(out)@ =~= old(out)@ + seq!['1']); }
    } else if d == 2 {
        out.append("2");
        proof { reveal_strlit("2"); assert(final(out)@ =~= old(out)@ + seq!['2']); }
    } else if d == 3 {
        out.append("3");
        proof { reveal_strlit("3"); assert(final(out)@ =~= old(out)@ + seq!['3']); }
    } else if d == 4 {
        out.append("4");
        proof { reveal_strlit("4"); assert(final(out)@ =~= old(out)@ + seq!['4']); }
    } else if d == 5 {
        out.append("5");
        proof { reveal_strlit("5"); assert(final(out)@ =~= old(out)@ + seq!['5']); }
    } else if d == 6 {
        out.append("6");
        proof { reveal_strlit("6"); assert(final(out)@ =~= old(out)@ + seq!['6']); }
    } else if d == 7 {
        out.append("7");
        proof { reveal_strlit("7"); assert(final(out)@ =~= old(out)@ + seq!['7']); }
    } else if d == 8 {
        out.append("8");
        proof { reveal_strlit("8"); assert(final(out)@ =~= old(out)@ + seq!['8']); }
    } else {
        out.append("9");
        proof { reveal_strlit("9"); assert(final(out)@ =~= old(out)@ + seq!['9']); }
    }
}

} // verus!
