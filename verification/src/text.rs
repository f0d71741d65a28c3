//! The wording of the lines that the game shows.

use vstd::prelude::*;
use crate::screen::Message;

verus! {

/// The character of one decimal digit.
pub open spec fn digit(d: int) -> char
    recommends
        0 <= d <= 9,
{
    if d == 0 {
        '0'
    } else if d == 1 {
        '1'
    } else if d == 2 {
        '2'
    } else if d == 3 {
        '3'
    } else if d == 4 {
        '4'
    } else if d == 5 {
        '5'
    } else if d == 6 {
        '6'
    } else if d == 7 {
        '7'
    } else if d == 8 {
        '8'
    } else {
        '9'
    }
}

/// The decimal digits of `n`, most significant first, without leading zeros.
pub open spec fn digits(n: nat) -> Seq<char>
    decreases n,
{
    if n < 10 {
        seq![digit(n as int)]
    } else {
        digits(n / 10).push(digit((n % 10) as int))
    }
}

/// `n` written in decimal, with a minus sign in front if it is negative.
pub open spec fn decimal(n: int) -> Seq<char> {
    if n < 0 {
        seq!['-'] + digits((-n) as nat)
    } else {
        digits(n as nat)
    }
}

/// One decimal digit as a string.
fn digit_str(d: u32) -> (s: &'static str)
    requires
        d <= 9,
    ensures
        s@ == seq![digit(d as int)],
{
    proof {
        reveal_strlit("0");
        reveal_strlit("1");
        reveal_strlit("2");
        reveal_strlit("3");
        reveal_strlit("4");
        reveal_strlit("5");
        reveal_strlit("6");
        reveal_strlit("7");
        reveal_strlit("8");
        reveal_strlit("9");
    }
    let s = if d == 0 {
        "0"
    } else if d == 1 {
        "1"
    } else if d == 2 {
        "2"
    } else if d == 3 {
        "3"
    } else if d == 4 {
        "4"
    } else if d == 5 {
        "5"
    } else if d == 6 {
        "6"
    } else if d == 7 {
        "7"
    } else if d == 8 {
        "8"
    } else {
        "9"
    };
    assert(s@ =~= seq![digit(d as int)]);
    s
}

/// Appends the decimal digits of `n` to `line`.
fn push_digits(line: &mut String, n: u32)
    ensures
        final(line)@ == old(line)@ + digits(n as nat),
    decreases n,
{
    if n >= 10 {
        push_digits(line, n / 10);
    }
    line.append(digit_str(n % 10));
    assert(final(line)@ =~= old(line)@ + digits(n as nat));
}

/// Appends `n`, written in decimal, to `line`.
pub fn push_decimal(line: &mut String, n: i32)
    ensures
        final(line)@ == old(line)@ + decimal(n as int),
{
    if n < 0 {
        proof {
            reveal_strlit("-");
        }
        line.append("-");
        let magnitude: i64 = -(n as i64);
        push_digits(line, magnitude as u32);
        assert(final(line)@ =~= old(line)@ + decimal(n as int));
    } else {
        push_digits(line, n as u32);
    }
}

impl Message {
    /// The wording of the line.
    pub open spec fn wording(self) -> Seq<char> {
        match self {
            Message::Welcome => "Welcome to Flappy Dragon!"@,
            Message::PlayOption => "[P] Play Game"@,
            Message::QuitOption => "[Q] Quit Game"@,
            Message::FlapHint => "Press [Space] to flap!"@,
            Message::Score(score) => "Score: "@ + decimal(score as int),
            Message::Dead => "You are dead!"@,
            Message::Earned(score) => "You earned "@ + decimal(score as int) + " points."@,
        }
    }

    /// The line as a string, ready to be printed.
    pub fn text(&self) -> (line: String)
        ensures
            line@ == self.wording(),
    {
        match self {
            Message::Welcome => String::from_str("Welcome to Flappy Dragon!"),
            Message::PlayOption => String::from_str("[P] Play Game"),
            Message::QuitOption => String::from_str("[Q] Quit Game"),
            Message::FlapHint => String::from_str("Press [Space] to flap!"),
            Message::Score(score) => {
                let mut line = String::from_str("Score: ");
                push_decimal(&mut line, *score);
                line
            },
            Message::Dead => String::from_str("You are dead!"),
            Message::Earned(score) => {
                let mut line = String::from_str("You earned ");
                push_decimal(&mut line, *score);
                line.append(" points.");
                line
            },
        }
    }
}

} // verus!
