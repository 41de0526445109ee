//! Text of samples, as it appears in notifications.
//!
//! A sample counted in thousandths is written as a decimal number with the
//! shortest fraction that keeps its value: `85000` is `85`, `85500` is
//! `85.5`, `-125` is `-0.125`.
use vstd::prelude::*;

verus! {

/// Thousandths in one unit of a sample.
pub const SAMPLE_SCALE: i64 = 1000;

pub open spec fn digit_char(d: int) -> char {
    seq!['0', '1', '2', '3', '4', '5', '6', '7', '8', '9'][d]
}

/// Decimal digits of `n`, without leading zeros.
pub open spec fn digits(n: nat) -> Seq<char>
    decreases n,
{
    if n < 10 {
        seq![digit_char(n as int)]
    } else {
        digits(n / 10).push(digit_char((n % 10) as int))
    }
}

/// The three digits of a fraction `f` in thousandths (`0 < f < 1000`),
/// without trailing zeros.
pub open spec fn fraction_digits(f: nat) -> Seq<char> {
    let d1 = digit_char((f / 100) as int);
    let d2 = digit_char(((f / 10) % 10) as int);
    let d3 = digit_char((f % 10) as int);
    if f % 10 != 0 {
        seq![d1, d2, d3]
    } else if f % 100 != 0 {
        seq![d1, d2]
    } else {
        seq![d1]
    }
}

/// The text of a sample counted in thousandths.
pub open spec fn sample_text(x: int) -> Seq<char> {
    let m: nat = if x < 0 { (-x) as nat } else { x as nat };
    let sign = if x < 0 { seq!['-'] } else { Seq::<char>::empty() };
    let f = m % 1000;
    let fraction = if f == 0 { Seq::<char>::empty() } else { seq!['.'] + fraction_digits(f) };
    sign + digits(m / 1000) + fraction
}

/// The samples of a window, separated by `:`.
pub open spec fn joined(s: Seq<i64>) -> Seq<char>
    decreases s.len(),
{
    if s.len() == 0 {
        Seq::empty()
    } else if s.len() == 1 {
        sample_text(s[0] as int)
    } else {
        joined(s.drop_last()) + seq![':'] + sample_text(s.last() as int)
    }
}

fn digit_str(d: u64) -> (r: &'static str)
    requires
        d < 10,
    ensures
        r@ == seq![digit_char(d as int)],
{
    proof {
        reveal_strlit("0");
        reveal_strlit("1");
        reveal_strlit("2");
        reveal_strlit("3");
        reveal_strlit("4");
        reveal_strlit("5");
        reveal_strlit("6");
        reveal_strlit("7");
        reveal_strlit("8");
        reveal_strlit("9");
    }
    match d {
        0 => "0",
        1 => "1",
        2 => "2",
        3 => "3",
        4 => "4",
        5 => "5",
        6 => "6",
        7 => "7",
        8 => "8",
        _ => "9",
    }
}

fn push_digits(out: &mut String, n: u64)
    ensures
        final(out)@ == old(out)@ + digits(n as nat),
    decreases n,
{
    if n >= 10 {
        push_digits(out, n / 10);
    }
    out.append(digit_str(n % 10));
    proof {
        if n >= 10 {
            assert(final(out)@ =~= old(out)@ + digits(n as nat));
        } else {
            assert(final(out)@ =~= old(out)@ + digits(n as nat));
        }
    }
}

/// Appends the text of a sample counted in thousandths.
pub fn push_sample(out: &mut String, x: i64)
    ensures
        final(out)@ == old(out)@ + sample_text(x as int),
{
    let ghost start = out@;
    let m: u64 = if x < 0 { (-(x as i128)) as u64 } else { x as u64 };
    if x < 0 {
        proof {
            reveal_strlit("-");
        }
        out.append("-");
    }
    push_digits(out, m / 1000);
    let f = m % 1000;
    if f != 0 {
        proof {
            reveal_strlit(".");
        }
        out.append(".");
        out.append(digit_str(f / 100));
        if f % 100 != 0 {
            out.append(digit_str((f / 10) % 10));
        }
        if f % 10 != 0 {
            out.append(digit_str(f % 10));
        }
    }
    proof {
        assert(final(out)@ =~= start + sample_text(x as int));
    }
}

/// Appends the samples of a window, separated by `:`.
pub fn push_joined(out: &mut String, samples: &Vec<i64>)
    ensures
        final(out)@ == old(out)@ + joined(samples@),
{
    let ghost start = out@;
    let mut i: usize = 0;
    while i < samples.len()
        invariant
            0 <= i <= samples@.len(),
            out@ == start + joined(samples@.subrange(0, i as int)),
        decreases samples@.len() - i,
    {
        let ghost before = out@;
        proof {
            assert(samples@.subrange(0, i + 1).drop_last() =~= samples@.subrange(0, i as int));
        }
        if i > 0 {
            proof {
                reveal_strlit(":");
            }
            out.append(":");
        }
        push_sample(out, samples[i]);
        proof {
            assert(out@ =~= start + joined(samples@.subrange(0, i + 1)));
        }
        i = i + 1;
    }
    proof {
        assert(samples@.subrange(0, samples@.len() as int) =~= samples@);
    }
}

} // verus!
