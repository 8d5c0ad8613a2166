use vstd::prelude::*;

use crate::number::Number;

verus! {

/// The character of a decimal digit.
pub open spec fn digit_char(d: int) -> char {
    if d == 0 {
        '0'
    } else if d == 1 {
        '1'
    } else if d == 2 {
        '2'
    } else if d == 3 {
        '3'
    } else if d == 4 {
        '4'
    } else if d == 5 {
        '5'
    } else if d == 6 {
        '6'
    } else if d == 7 {
        '7'
    } else if d == 8 {
        '8'
    } else {
        '9'
    }
}

/// The decimal digits of `n`, most significant first, without leading zeros.
pub open spec fn digits(n: nat) -> Seq<char>
    decreases n,
{
    if n < 10 {
        seq![digit_char(n as int)]
    } else {
        digits(n / 10).push(digit_char((n % 10) as int))
    }
}

/// The decimal text of an integer, with a leading `-` when it is negative.
pub open spec fn decimal(v: int) -> Seq<char> {
    if v < 0 {
        seq!['-'] + digits((-v) as nat)
    } else {
        digits(v as nat)
    }
}

/// The integers that a sequence of numbers stands for.
pub open spec fn ints<T: Number>(s: Seq<T>) -> Seq<int> {
    s.map_values(|x: T| x.value())
}

/// The decimal texts of `vs`, with `sep` between each two of them.
pub open spec fn joined(vs: Seq<int>, sep: Seq<char>) -> Seq<char>
    decreases vs.len(),
{
    if vs.len() == 0 {
        Seq::empty()
    } else if vs.len() == 1 {
        decimal(vs[0])
    } else {
        joined(vs.drop_last(), sep) + sep + decimal(vs.last())
    }
}

/// `vs` as a bracketed, comma-separated list: `[1, 2, 3]`.
pub open spec fn bracketed(vs: Seq<int>) -> Seq<char> {
    "["@ + joined(vs, ", "@) + "]"@
}

fn push_digit(out: &mut String, d: u128)
    requires
        d < 10,
    ensures
        final(out)@ == old(out)@.push(digit_char(d as int)),
{
    let ghost start = out@;
    if d == 0 {
        proof { reveal_strlit("0"); }
        out.append("0");
    } else if d == 1 {
        proof { reveal_strlit("1"); }
        out.append("1");
    } else if d == 2 {
        proof { reveal_strlit("2"); }
        out.append("2");
    } else if d == 3 {
        proof { reveal_strlit("3"); }
        out.append("3");
    } else if d == 4 {
        proof { reveal_strlit("4"); }
        out.append("4");
    } else if d == 5 {
        proof { reveal_strlit("5"); }
        out.append("5");
    } else if d == 6 {
        proof { reveal_strlit("6"); }
        out.append("6");
    } else if d == 7 {
        proof { reveal_strlit("7"); }
        out.append("7");
    } else if d == 8 {
        proof { reveal_strlit("8"); }
        out.append("8");
    } else {
        proof { reveal_strlit("9"); }
        out.append("9");
    }
    assert(out@ =~= start.push(digit_char(d as int)));
}

fn push_digits(out: &mut String, n: u128)
    ensures
        final(out)@ == old(out)@ + digits(n as nat),
    decreases n,
{
    let ghost start = out@;
    if n >= 10 {
        push_digits(out, n / 10);
    }
    push_digit(out, n % 10);
    assert(out@ =~= start + digits(n as nat));
}

/// Appends the decimal text of `v` to `out`.
pub fn push_decimal(out: &mut String, v: i128)
    ensures
        final(out)@ == old(out)@ + decimal(v as int),
{
    let ghost start = out@;
    if v < 0 {
        proof { reveal_strlit("-"); }
        out.append("-");
        let m: u128 = ((-(v + 1)) as u128) + 1;
        push_digits(out, m);
    } else {
        push_digits(out, v as u128);
    }
    assert(out@ =~= start + decimal(v as int));
}

/// Appends the decimal texts of `vs` to `out`, with `sep` between each two.
pub fn push_joined<T: Number>(out: &mut String, vs: &Vec<T>, sep: &str)
    ensures
        final(out)@ == old(out)@ + joined(ints(vs@), sep@),
{
    let ghost start = out@;
    let n = vs.len();
    let mut i: usize = 0;
    while i < n
        invariant
            n == vs@.len(),
            i <= n,
            out@ == start + joined(ints(vs@.take(i as int)), sep@),
        decreases n - i,
    {
        let ghost before = out@;
        if i > 0 {
            out.append(sep);
        }
        push_decimal(out, vs[i].widen());
        proof {
            let s = ints(vs@.take(i + 1));
            assert(s.drop_last() =~= ints(vs@.take(i as int)));
            assert(s.last() == vs@[i as int].value());
            if i == 0 {
                assert(s.len() == 1);
            }
        }
        i = i + 1;
        assert(out@ =~= start + joined(ints(vs@.take(i as int)), sep@));
    }
    assert(vs@.take(n as int) =~= vs@);
}

} // verus!
