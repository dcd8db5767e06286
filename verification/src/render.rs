//! What a frame shows: the rackets, the ball and the score, as shapes for a
//! drawing service to paint.

use vstd::prelude::*;
use vstd::string::StringExecFns;
use crate::geometry::{Point, Screen};
use crate::state::MainState;
use crate::units::{BALL_SIZE, RACKET_HEIGHT, RACKET_WIDTH};

verus! {

/// The two colors of the game.
#[derive(Clone, Copy, Debug, PartialEq, Eq, Structural)]
pub enum Color {
    Black,
    White,
}

/// A filled rectangle with its sides along the axes, given by its center and
/// its size.
#[derive(Clone, Copy, Debug, PartialEq, Eq, Structural)]
pub struct Rectangle {
    pub center: Point,
    pub width: i64,
    pub height: i64,
}

/// A line of text and the place of its top left corner.
#[derive(Debug, PartialEq, Eq)]
pub struct Label {
    pub text: String,
    pub position: Point,
}

/// All that one frame shows. The screen is cleared to `background`; then the
/// two rackets, the ball and the score are painted in `foreground`, in that
/// order.
#[derive(Debug, PartialEq, Eq)]
pub struct Scene {
    pub background: Color,
    pub foreground: Color,
    pub player_1: Rectangle,
    pub player_2: Rectangle,
    pub ball: Rectangle,
    pub score: Label,
}

/// The character for a decimal digit.
pub open spec fn digit(d: int) -> char {
    if d == 0 {
        '0'
    } else if d == 1 {
        '1'
    } else if d == 2 {
        '2'
    } else if d == 3 {
        '3'
    } else if d == 4 {
        '4'
    } else if d == 5 {
        '5'
    } else if d == 6 {
        '6'
    } else if d == 7 {
        '7'
    } else if d == 8 {
        '8'
    } else {
        '9'
    }
}

/// A number written in decimal, without leading zeros.
pub open spec fn decimal(n: nat) -> Seq<char>
    decreases n,
{
    if n < 10 {
        seq![digit(n as int)]
    } else {
        decimal(n / 10).push(digit((n % 10) as int))
    }
}

/// The score as it is shown: player 1's points, three spaces, player 2's
/// points.
pub open spec fn score_text(player_1: u32, player_2: u32) -> Seq<char> {
    decimal(player_1 as nat) + seq![' ', ' ', ' '] + decimal(player_2 as nat)
}

/// The racket to paint at `center`.
pub open spec fn racket_at(center: Point) -> Rectangle {
    Rectangle { center, width: RACKET_WIDTH, height: RACKET_HEIGHT }
}

/// The ball to paint at `center`.
pub open spec fn ball_at(center: Point) -> Rectangle {
    Rectangle { center, width: BALL_SIZE, height: BALL_SIZE }
}

/// The text for one decimal digit.
fn digit_text(d: u32) -> (text: &'static str)
    requires
        d < 10,
    ensures
        text@ == seq![digit(d as int)],
{
    proof {
        reveal_strlit("0");
        reveal_strlit("1");
        reveal_strlit("2");
        reveal_strlit("3");
        reveal_strlit("4");
        reveal_strlit("5");
        reveal_strlit("6");
        reveal_strlit("7");
        reveal_strlit("8");
        reveal_strlit("9");
    }
    let text = if d == 0 {
        "0"
    } else if d == 1 {
        "1"
    } else if d == 2 {
        "2"
    } else if d == 3 {
        "3"
    } else if d == 4 {
        "4"
    } else if d == 5 {
        "5"
    } else if d == 6 {
        "6"
    } else if d == 7 {
        "7"
    } else if d == 8 {
        "8"
    } else {
        "9"
    };
    assert(text@ =~= seq![digit(d as int)]);
    text
}

/// Writes `n` in decimal at the end of `text`.
pub fn push_decimal(text: &mut String, n: u32)
    ensures
        final(text)@ == old(text)@ + decimal(n as nat),
    decreases n,
{
    if n >= 10 {
        push_decimal(text, n / 10);
    }
    text.append(digit_text(n % 10));
    assert(final(text)@ =~= old(text)@ + decimal(n as nat));
}

/// The score as it is shown: player 1's points, three spaces, player 2's
/// points.
pub fn score_label(player_1: u32, player_2: u32) -> (text: String)
    ensures
        text@ == score_text(player_1, player_2),
{
    let mut text = String::new();
    push_decimal(&mut text, player_1);
    proof {
        reveal_strlit("   ");
    }
    text.append("   ");
    push_decimal(&mut text, player_2);
    assert(text@ =~= score_text(player_1, player_2));
    text
}

impl MainState {
    /// The scene for this state on `screen`: a black background, and in white
    /// the two rackets and the ball at their centers and the score with its
    /// corner in the middle of the screen. The state is not changed.
    pub fn draw(&self, screen: Screen) -> (scene: Scene)
        ensures
            scene.background == Color::Black,
            scene.foreground == Color::White,
            scene.player_1 == racket_at(self.player_1_pos),
            scene.player_2 == racket_at(self.player_2_pos),
            scene.ball == ball_at(self.ball_pos),
            scene.score.text@ == score_text(self.player_1_score, self.player_2_score),
            scene.score.position == screen.spec_center(),
    {
        Scene {
            background: Color::Black,
            foreground: Color::White,
            player_1: Rectangle {
                center: self.player_1_pos,
                width: RACKET_WIDTH,
                height: RACKET_HEIGHT,
            },
            player_2: Rectangle {
                center: self.player_2_pos,
                width: RACKET_WIDTH,
                height: RACKET_HEIGHT,
            },
            ball: Rectangle { center: self.ball_pos, width: BALL_SIZE, height: BALL_SIZE },
            score: Label {
                text: score_label(self.player_1_score, self.player_2_score),
                position: screen.center(),
            },
        }
    }
}

} // verus!
