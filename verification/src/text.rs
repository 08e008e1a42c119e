//! Decimal numerals and separated id lists, as they appear inside statement text.

use vstd::prelude::*;

verus! {

/// The character that stands for a single decimal digit.
pub open spec fn digit_char(d: nat) -> char {
    if d == 0 {
        '0'
    } else if d == 1 {
        '1'
    } else if d == 2 {
        '2'
    } else if d == 3 {
        '3'
    } else if d == 4 {
        '4'
    } else if d == 5 {
        '5'
    } else if d == 6 {
        '6'
    } else if d == 7 {
        '7'
    } else if d == 8 {
        '8'
    } else {
        '9'
    }
}

/// The decimal numeral of `n`: no sign, no leading zero, `"0"` for zero.
pub open spec fn decimal(n: nat) -> Seq<char>
    decreases n,
{
    if n < 10 {
        seq![digit_char(n)]
    } else {
        decimal(n / 10).push(digit_char(n % 10))
    }
}

fn digit_str(d: u8) -> (s: &'static str)
    requires
        d < 10,
    ensures
        s@ == seq![digit_char(d as nat)],
{
    proof {
        reveal_strlit("0");
        reveal_strlit("1");
        reveal_strlit("2");
        reveal_strlit("3");
        reveal_strlit("4");
        reveal_strlit("5");
        reveal_strlit("6");
        reveal_strlit("7");
        reveal_strlit("8");
        reveal_strlit("9");
    }
    let s = match d {
        0 => "0",
        1 => "1",
        2 => "2",
        3 => "3",
        4 => "4",
        5 => "5",
        6 => "6",
        7 => "7",
        8 => "8",
        _ => "9",
    };
    assert(s@ =~= seq![digit_char(d as nat)]);
    s
}

/// Appends the decimal numeral of `n` to `out`.
pub fn push_decimal(out: &mut String, n: u64)
    ensures
        final(out)@ == old(out)@ + decimal(n as nat),
    decreases n,
{
    if n >= 10 {
        push_decimal(out, n / 10);
    }
    let d: u8 = (n % 10) as u8;
    out.append(digit_str(d));
    proof {
        if n >= 10 {
            assert(final(out)@ =~= old(out)@ + decimal(n as nat));
        } else {
            assert(final(out)@ =~= old(out)@ + decimal(n as nat));
        }
    }
}

/// The decimal numerals of `ids`, in order, with `sep` between neighbours.
pub open spec fn joined(ids: Seq<u32>, sep: Seq<char>) -> Seq<char>
    decreases ids.len(),
{
    if ids.len() == 0 {
        Seq::empty()
    } else if ids.len() == 1 {
        decimal(ids[0] as nat)
    } else {
        joined(ids.drop_last(), sep) + sep + decimal(ids.last() as nat)
    }
}

/// Appends the decimal numerals of `ids` to `out`, with `sep` between neighbours.
pub fn push_joined(out: &mut String, ids: &Vec<u32>, sep: &str)
    ensures
        final(out)@ == old(out)@ + joined(ids@, sep@),
{
    let mut i: usize = 0;
    assert(ids@.subrange(0, 0) =~= Seq::<u32>::empty());
    assert(out@ =~= old(out)@ + joined(ids@.subrange(0, 0), sep@));
    while i < ids.len()
        invariant
            i <= ids.len(),
            out@ == old(out)@ + joined(ids@.subrange(0, i as int), sep@),
        decreases ids.len() - i,
    {
        let ghost prefix = ids@.subrange(0, i as int);
        let ghost next = ids@.subrange(0, i + 1);
        assert(next.drop_last() =~= prefix);
        assert(next.last() == ids@[i as int]);
        let ghost before = out@;
        if i > 0 {
            out.append(sep);
        }
        push_decimal(out, ids[i] as u64);
        proof {
            if i == 0 {
                assert(next[0] == ids@[0]);
                assert(prefix.len() == 0);
                assert(out@ =~= old(out)@ + joined(next, sep@));
            } else {
                assert(out@ =~= old(out)@ + joined(next, sep@));
            }
        }
        i += 1;
    }
    assert(ids@.subrange(0, ids.len() as int) =~= ids@);
}

/// `text` as an owned string.
pub fn owned(text: &str) -> (s: String)
    ensures
        s@ == text@,
{
    String::from_str(text)
}

} // verus!
