//! The scoreboard text: the line the score display shows, rendered as the
//! fixed label followed by the score in decimal.

use vstd::prelude::*;

verus! {

/// The character that writes a single decimal digit.
pub open spec fn digit_char(d: int) -> char {
    if d == 0 {
        '0'
    } else if d == 1 {
        '1'
    } else if d == 2 {
        '2'
    } else if d == 3 {
        '3'
    } else if d == 4 {
        '4'
    } else if d == 5 {
        '5'
    } else if d == 6 {
        '6'
    } else if d == 7 {
        '7'
    } else if d == 8 {
        '8'
    } else {
        '9'
    }
}

/// The decimal digits of `n`, most significant first, with no leading zero
/// except for `n == 0` itself.
pub open spec fn dec_digits(n: nat) -> Seq<char>
    decreases n,
{
    if n < 10 {
        seq![digit_char(n as int)]
    } else {
        dec_digits(n / 10) + seq![digit_char((n % 10) as int)]
    }
}

fn digit_to_char(d: u64) -> (c: char)
    requires
        d < 10,
    ensures
        c == digit_char(d as int),
{
    match d {
        0 => '0',
        1 => '1',
        2 => '2',
        3 => '3',
        4 => '4',
        5 => '5',
        6 => '6',
        7 => '7',
        8 => '8',
        _ => '9',
    }
}

/// Relies on String::push: it appends the given character to the end of the
/// string.
#[verifier::external_body]
fn push_char(s: &mut String, c: char)
    ensures
        final(s)@ == old(s)@.push(c),
{
    s.push(c)
}

/// The line the score display shows: the label "Score: " followed by the
/// score in decimal.
pub fn score_text(score: u64) -> (s: String)
    ensures
        s@ == "Score: "@ + dec_digits(score as nat),
{
    let mut digits: Vec<char> = Vec::new();
    let mut n: u64 = score;
    while n >= 10
        invariant
            dec_digits(score as nat) == dec_digits(n as nat) + digits@,
        decreases n,
    {
        let c = digit_to_char(n % 10);
        digits.insert(0, c);
        n = n / 10;
        proof {
            assert(dec_digits(score as nat) =~= dec_digits(n as nat) + digits@);
        }
    }
    let c = digit_to_char(n);
    digits.insert(0, c);
    proof {
        assert(digits@ =~= dec_digits(score as nat));
    }
    let mut s = "Score: ".to_owned();
    let mut i: usize = 0;
    while i < digits.len()
        invariant
            i <= digits.len(),
            digits@ == dec_digits(score as nat),
            s@ == "Score: "@ + digits@.subrange(0, i as int),
        decreases digits.len() - i,
    {
        push_char(&mut s, digits[i]);
        i = i + 1;
        proof {
            assert(s@ =~= "Score: "@ + digits@.subrange(0, i as int));
        }
    }
    proof {
        assert(s@ =~= "Score: "@ + dec_digits(score as nat));
    }
    s
}

} // verus!
