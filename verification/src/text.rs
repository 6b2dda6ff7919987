//! The texts the game shows, and how its numbers are written.

use vstd::prelude::*;
use vstd::string::*;

verus! {

/// A text of the game. The host shows what `render` returns.
#[derive(Clone, Copy, Debug, PartialEq, Eq, Structural)]
pub enum Text {
    /// The score, written with at least three digits.
    Score(u16),
    /// The number of balls left.
    Balls(u8),
    ClickToPlay,
    GamePaused,
    ClickToResume,
    GameOver,
    ClickToPlayAgain,
    YouWin,
    ExitGame,
}

/// The character for a single decimal digit.
pub open spec fn digit(d: nat) -> char
    recommends
        d < 10,
{
    if d == 0 {
        '0'
    } else if d == 1 {
        '1'
    } else if d == 2 {
        '2'
    } else if d == 3 {
        '3'
    } else if d == 4 {
        '4'
    } else if d == 5 {
        '5'
    } else if d == 6 {
        '6'
    } else if d == 7 {
        '7'
    } else if d == 8 {
        '8'
    } else {
        '9'
    }
}

/// `n` written in decimal, without leading zeros.
pub open spec fn decimal(n: nat) -> Seq<char>
    decreases n,
{
    if n < 10 {
        seq![digit(n)]
    } else {
        decimal(n / 10).push(digit(n % 10))
    }
}

/// `n` written in decimal with zeros in front of it up to three digits.
pub open spec fn three_digits(n: nat) -> Seq<char> {
    if n < 10 {
        seq!['0', '0'] + decimal(n)
    } else if n < 100 {
        seq!['0'] + decimal(n)
    } else {
        decimal(n)
    }
}

impl Text {
    /// The characters of the text.
    pub open spec fn chars(self) -> Seq<char> {
        match self {
            Text::Score(score) => three_digits(score as nat),
            Text::Balls(balls) => decimal(balls as nat),
            Text::ClickToPlay => "Click anywhere to play"@,
            Text::GamePaused => "Game paused"@,
            Text::ClickToResume => "Click anywhere to resume"@,
            Text::GameOver => "Game over!"@,
            Text::ClickToPlayAgain => "Click anywhere to play again"@,
            Text::YouWin => "You win!"@,
            Text::ExitGame => "Exit Game"@,
        }
    }

    /// Writes the text out.
    pub fn render(&self) -> (s: String)
        ensures
            s@ == self.chars(),
    {
        match self {
            Text::Score(score) => {
                let mut s = String::new();
                if *score < 10 {
                    s.append("00");
                } else if *score < 100 {
                    s.append("0");
                }
                proof {
                    reveal_strlit("00");
                    reveal_strlit("0");
                    assert(s@ + decimal(*score as nat) =~= three_digits(*score as nat));
                }
                append_decimal(&mut s, *score);
                s
            },
            Text::Balls(balls) => {
                let mut s = String::new();
                append_decimal(&mut s, *balls as u16);
                assert(s@ =~= decimal(*balls as nat));
                s
            },
            Text::ClickToPlay => String::from_str("Click anywhere to play"),
            Text::GamePaused => String::from_str("Game paused"),
            Text::ClickToResume => String::from_str("Click anywhere to resume"),
            Text::GameOver => String::from_str("Game over!"),
            Text::ClickToPlayAgain => String::from_str("Click anywhere to play again"),
            Text::YouWin => String::from_str("You win!"),
            Text::ExitGame => String::from_str("Exit Game"),
        }
    }
}

/// The one-character string for a decimal digit.
fn digit_str(d: u16) -> (s: &'static str)
    requires
        d < 10,
    ensures
        s@ == seq![digit(d as nat)],
{
    proof {
        reveal_strlit("0");
        reveal_strlit("1");
        reveal_strlit("2");
        reveal_strlit("3");
        reveal_strlit("4");
        reveal_strlit("5");
        reveal_strlit("6");
        reveal_strlit("7");
        reveal_strlit("8");
        reveal_strlit("9");
    }
    let s = match d {
        0 => "0",
        1 => "1",
        2 => "2",
        3 => "3",
        4 => "4",
        5 => "5",
        6 => "6",
        7 => "7",
        8 => "8",
        _ => "9",
    };
    assert(s@ =~= seq![digit(d as nat)]);
    s
}

/// Writes `n` in decimal behind what `s` holds.
fn append_decimal(s: &mut String, n: u16)
    ensures
        final(s)@ == old(s)@ + decimal(n as nat),
    decreases n,
{
    if n >= 10 {
        append_decimal(s, n / 10);
    }
    s.append(digit_str(n % 10));
    assert(s@ =~= old(s)@ + decimal(n as nat));
}

/// The decimal form of a number has as many digits as the number has powers
/// of ten below it, plus one; so a score is written with three digits up to
/// 999 and with its own four or five beyond.
pub proof fn lemma_three_digits_len(n: nat)
    ensures
        decimal(n).len() >= 1,
        n < 10 <==> decimal(n).len() == 1,
        10 <= n < 100 <==> decimal(n).len() == 2,
        100 <= n < 1000 <==> decimal(n).len() == 3,
        n < 1000 ==> three_digits(n).len() == 3,
        n >= 1000 ==> three_digits(n) == decimal(n) && three_digits(n).len() > 3,
    decreases n,
{
    if n >= 10 {
        lemma_three_digits_len(n / 10);
    }
}

} // verus!
