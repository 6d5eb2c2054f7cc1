//! The score's read-only projection for a display collaborator: the
//! two counters as decimal digits joined by a single space.

use vstd::prelude::*;
use crate::state::Score;

verus! {

/// The decimal digit character for `d`.
pub open spec fn digit_char(d: int) -> char {
    if d == 0 {
        '0'
    } else if d == 1 {
        '1'
    } else if d == 2 {
        '2'
    } else if d == 3 {
        '3'
    } else if d == 4 {
        '4'
    } else if d == 5 {
        '5'
    } else if d == 6 {
        '6'
    } else if d == 7 {
        '7'
    } else if d == 8 {
        '8'
    } else {
        '9'
    }
}

/// The usual decimal rendering of `n`: no leading zeroes, except that
/// zero itself is a single `'0'`.
pub open spec fn dec_rep(n: nat) -> Seq<char>
    decreases n,
{
    if n < 10 {
        seq![digit_char(n as int)]
    } else {
        dec_rep(n / 10).push(digit_char((n % 10) as int))
    }
}

/// What the display collaborator shows: both counters in decimal,
/// space-joined.
pub open spec fn score_line(p1: nat, p2: nat) -> Seq<char> {
    dec_rep(p1) + seq![' '] + dec_rep(p2)
}

/// Reversing after a push puts the pushed element first.
proof fn lemma_reverse_push<A>(s: Seq<A>, a: A)
    ensures
        s.push(a).reverse() == seq![a] + s.reverse(),
{
    assert(s.push(a).reverse() =~= seq![a] + s.reverse());
}

/// The decimal digit character for `d`, as a value.
fn digit_char_of(d: u32) -> (c: char)
    requires
        d < 10,
    ensures
        c == digit_char(d as int),
{
    match d {
        0 => '0',
        1 => '1',
        2 => '2',
        3 => '3',
        4 => '4',
        5 => '5',
        6 => '6',
        7 => '7',
        8 => '8',
        _ => '9',
    }
}

/// The decimal digits of `n`, most significant first.
pub fn decimal_digits(n: u32) -> (digits: Vec<char>)
    ensures
        digits@ == dec_rep(n as nat),
{
    let mut rev: Vec<char> = Vec::new();
    let mut m: u32 = n;
    while m >= 10
        invariant
            dec_rep(n as nat) == dec_rep(m as nat) + rev@.reverse(),
        decreases m,
    {
        let d: char = digit_char_of(m % 10);
        proof {
            lemma_reverse_push(rev@, digit_char((m % 10) as int));
        }
        rev.push(d);
        m = m / 10;
    }
    let d: char = digit_char_of(m);
    proof {
        lemma_reverse_push(rev@, digit_char(m as int));
        assert(dec_rep(n as nat) =~= rev@.push(digit_char(m as int)).reverse());
    }
    rev.push(d);
    let ghost target = dec_rep(n as nat);
    let mut digits: Vec<char> = Vec::new();
    let total: usize = rev.len();
    let mut i: usize = 0;
    while i < total
        invariant
            total == rev@.len(),
            i <= total,
            target == rev@.reverse(),
            digits@ =~= target.subrange(0, i as int),
        decreases total - i,
    {
        let c: char = rev[total - 1 - i];
        digits.push(c);
        i = i + 1;
    }
    assert(digits@ =~= target);
    digits
}

/// The score as the display collaborator's line of text: the first
/// player's points, a space, the second player's points.
pub fn score_line_chars(score: &Score) -> (line: Vec<char>)
    ensures
        line@ == score_line(score.p1 as nat, score.p2 as nat),
{
    let mut line: Vec<char> = decimal_digits(score.p1);
    line.push(' ');
    let mut tail: Vec<char> = decimal_digits(score.p2);
    line.append(&mut tail);
    proof {
        assert(line@ =~= score_line(score.p1 as nat, score.p2 as nat));
    }
    line
}

} // verus!
