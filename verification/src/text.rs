//! Plain text for the panel: numbers, clock times, runs of one character.

use vstd::prelude::*;

verus! {

/// The character of the decimal digit `d`.
pub open spec fn digit(d: nat) -> char
    recommends
        d < 10,
{
    ('0' as u32 + d) as char
}

/// `n` in decimal, without leading zeros.
pub open spec fn decimal(n: nat) -> Seq<char>
    decreases n,
{
    if n < 10 {
        seq![digit(n)]
    } else {
        decimal(n / 10).push(digit(n % 10))
    }
}

/// `n` in decimal, with a leading zero where it has one digit only.
pub open spec fn two_digits(n: nat) -> Seq<char> {
    if n < 10 {
        seq!['0', digit(n)]
    } else {
        decimal(n)
    }
}

/// A time in seconds as minutes and seconds, `mm:ss`. The minutes take more
/// than two digits from a hundred minutes on.
pub open spec fn clock(seconds: nat) -> Seq<char> {
    two_digits(seconds / 60) + seq![':'] + two_digits(seconds % 60)
}

/// `count` copies of `ch`.
pub open spec fn run(ch: char, count: nat) -> Seq<char> {
    Seq::new(count, |i: int| ch)
}

/// A decimal number has at least one digit.
pub proof fn lemma_decimal_len(n: nat)
    ensures
        decimal(n).len() >= 1,
        n >= 10 ==> decimal(n).len() >= 2,
        n < 10 ==> decimal(n).len() == 1,
        10 <= n < 100 ==> decimal(n).len() == 2,
        100 <= n < 1000 ==> decimal(n).len() == 3,
    decreases n,
{
    reveal_with_fuel(decimal, 3);
    if n >= 10 {
        lemma_decimal_len(n / 10);
    }
}

/// A clock time under a hundred minutes takes five characters, and no clock
/// time takes fewer.
pub proof fn lemma_clock_len(seconds: nat)
    ensures
        clock(seconds).len() >= 5,
        seconds < 6000 ==> clock(seconds).len() == 5,
{
    lemma_decimal_len(seconds / 60);
    lemma_decimal_len(seconds % 60);
}

fn digit_char(d: u8) -> (ch: char)
    requires
        d < 10,
    ensures
        ch == digit(d as nat),
{
    (48u8 + d) as char
}

/// Appends `text` to `buffer`.
pub(crate) fn push_str(buffer: &mut Vec<char>, text: &str)
    ensures
        final(buffer)@ == old(buffer)@ + text@,
{
    let count = text.unicode_len();
    let mut done: usize = 0;
    proof {
        assert(buffer@ =~= old(buffer)@ + text@.take(0));
    }
    while done < count
        invariant
            done <= count,
            count == text@.len(),
            buffer@ == old(buffer)@ + text@.take(done as int),
        decreases count - done,
    {
        buffer.push(text.get_char(done));
        done = done + 1;
        proof {
            assert(text@.take(done as int) =~= text@.take(done - 1).push(text@[done - 1]));
            assert(buffer@ =~= old(buffer)@ + text@.take(done as int));
        }
    }
    proof {
        assert(text@.take(done as int) == text@);
    }
}

/// Appends `count` copies of `ch` to `buffer`.
pub(crate) fn push_run(buffer: &mut Vec<char>, ch: char, count: usize)
    ensures
        final(buffer)@ == old(buffer)@ + run(ch, count as nat),
{
    let mut done: usize = 0;
    proof {
        assert(buffer@ =~= old(buffer)@ + run(ch, 0));
    }
    while done < count
        invariant
            done <= count,
            buffer@ == old(buffer)@ + run(ch, done as nat),
        decreases count - done,
    {
        buffer.push(ch);
        done = done + 1;
        proof {
            assert(run(ch, done as nat) =~= run(ch, (done - 1) as nat).push(ch));
            assert(buffer@ =~= old(buffer)@ + run(ch, done as nat));
        }
    }
}

/// Appends `n` in decimal to `buffer`.
pub(crate) fn push_decimal(buffer: &mut Vec<char>, n: u64)
    ensures
        final(buffer)@ == old(buffer)@ + decimal(n as nat),
    decreases n,
{
    if n < 10 {
        buffer.push(digit_char(n as u8));
        proof {
            assert(buffer@ =~= old(buffer)@ + decimal(n as nat));
        }
    } else {
        push_decimal(buffer, n / 10);
        buffer.push(digit_char((n % 10) as u8));
        proof {
            assert(buffer@ =~= old(buffer)@ + decimal(n as nat));
        }
    }
}

/// Appends `n` in decimal to `buffer`, with a leading zero where it has one
/// digit only.
pub(crate) fn push_two_digits(buffer: &mut Vec<char>, n: u64)
    ensures
        final(buffer)@ == old(buffer)@ + two_digits(n as nat),
{
    if n < 10 {
        buffer.push('0');
        buffer.push(digit_char(n as u8));
        proof {
            assert(buffer@ =~= old(buffer)@ + two_digits(n as nat));
        }
    } else {
        push_decimal(buffer, n);
    }
}

/// Appends the clock time of `seconds` to `buffer`.
pub(crate) fn push_clock(buffer: &mut Vec<char>, seconds: u64)
    ensures
        final(buffer)@ == old(buffer)@ + clock(seconds as nat),
{
    push_two_digits(buffer, seconds / 60);
    buffer.push(':');
    push_two_digits(buffer, seconds % 60);
    proof {
        assert(buffer@ =~= old(buffer)@ + clock(seconds as nat));
    }
}

} // verus!
