//! The state of a game and the frame step that drives it.

use vstd::prelude::*;
use crate::ball::{flown, integrate, is_serve, randomize_vec};
use crate::geometry::{Point, Screen, Vector};
use crate::racket::{lemma_idle_racket_rests, move_racket, on_screen, racket_y};
use crate::units::{BALL_SPEED, RACKET_HEIGHT_PIXELS, RACKET_WIDTH_HALF};

verus! {

/// The keys that are held during a frame.
#[derive(Clone, Copy, Debug, PartialEq, Eq, Structural)]
pub struct Keys {
    pub player_1_up: bool,
    pub player_1_down: bool,
    pub player_2_up: bool,
    pub player_2_down: bool,
}

/// What the frame driver knows of one frame: the ticks since the frame
/// before, the held keys, and the size of the screen.
#[derive(Clone, Copy, Debug, PartialEq, Eq, Structural)]
pub struct Frame {
    pub dt: u64,
    pub keys: Keys,
    pub screen: Screen,
}

/// A game: the centers of the two rackets, the ball with its velocity, and
/// the score. Player 1 holds the left edge and player 2 the right.
#[derive(Clone, Copy, Debug, PartialEq, Eq, Structural)]
pub struct MainState {
    pub player_1_pos: Point,
    pub player_2_pos: Point,
    pub ball_pos: Point,
    pub ball_vel: Vector,
    pub player_1_score: u32,
    pub player_2_score: u32,
}

/// Whether a ball at `ball` has left the court on the left.
pub open spec fn out_left(ball: Point) -> bool {
    ball.x < 0
}

/// Whether a ball at `ball` has left the court on the right. The court is as
/// wide as the screen is high.
pub open spec fn out_right(ball: Point, screen: Screen) -> bool {
    ball.x > screen.spec_bottom()
}

impl MainState {
    /// The state a game starts in when the ball is served at `serve`: the
    /// rackets at half height against the left and the right edge, the ball in
    /// the middle, and no points.
    pub open spec fn kickoff(screen: Screen, serve: Vector) -> MainState {
        MainState {
            player_1_pos: Point { x: RACKET_WIDTH_HALF, y: screen.spec_center().y },
            player_2_pos: Point {
                x: (screen.spec_right() - RACKET_WIDTH_HALF) as i64,
                y: screen.spec_center().y,
            },
            ball_pos: screen.spec_center(),
            ball_vel: serve,
            player_1_score: 0,
            player_2_score: 0,
        }
    }

    /// Whether both rackets lie wholly on the screen.
    pub open spec fn rackets_on_screen(self, screen: Screen) -> bool {
        &&& on_screen(self.player_1_pos.y as int, screen.height)
        &&& on_screen(self.player_2_pos.y as int, screen.height)
    }

    /// Whether both players can still score: no score stands at the largest
    /// number that can be counted.
    pub open spec fn spec_can_score(&self) -> bool {
        &&& self.player_1_score < u32::MAX
        &&& self.player_2_score < u32::MAX
    }

    /// Whether both players can still score: no score stands at the largest
    /// number that can be counted.
    #[verifier::when_used_as_spec(spec_can_score)]
    pub fn can_score(&self) -> (room: bool)
        ensures
            room == self.spec_can_score(),
    {
        self.player_1_score < u32::MAX && self.player_2_score < u32::MAX
    }

    /// The state after the rackets and the ball have moved for a frame, before
    /// the ball is tested against the edges.
    pub open spec fn moved(self, frame: Frame) -> MainState {
        MainState {
            player_1_pos: Point {
                x: self.player_1_pos.x,
                y: racket_y(
                    self.player_1_pos.y as int,
                    frame.keys.player_1_up,
                    frame.keys.player_1_down,
                    frame.dt as int,
                    frame.screen.height,
                ) as i64,
            },
            player_2_pos: Point {
                x: self.player_2_pos.x,
                y: racket_y(
                    self.player_2_pos.y as int,
                    frame.keys.player_2_up,
                    frame.keys.player_2_down,
                    frame.dt as int,
                    frame.screen.height,
                ) as i64,
            },
            ball_pos: flown(self.ball_pos, self.ball_vel, frame.dt),
            ..self
        }
    }

    /// Whether the ball leaves on the left during the frame.
    pub open spec fn exits_left(self, frame: Frame) -> bool {
        out_left(self.moved(frame).ball_pos)
    }

    /// Whether the ball leaves on the right during the frame. Both exits are
    /// tested where the flight took the ball, so it leaves on one side at most.
    pub open spec fn exits_right(self, frame: Frame) -> bool {
        !self.exits_left(frame) && out_right(self.moved(frame).ball_pos, frame.screen)
    }

    /// The state after a whole frame, where `serve` is the velocity of the
    /// ball after its return to the middle, if it returned at all.
    pub open spec fn played(self, frame: Frame, serve: Vector) -> MainState {
        let moved = self.moved(frame);
        let left = self.exits_left(frame);
        let right = self.exits_right(frame);
        MainState {
            ball_pos: if left || right {
                frame.screen.spec_center()
            } else {
                moved.ball_pos
            },
            ball_vel: if left || right {
                serve
            } else {
                self.ball_vel
            },
            player_1_score: if right {
                (self.player_1_score + 1) as u32
            } else {
                self.player_1_score
            },
            player_2_score: if left {
                (self.player_2_score + 1) as u32
            } else {
                self.player_2_score
            },
            ..moved
        }
    }

    /// Starts a game on `screen` with the ball served at `serve`.
    pub fn with_serve(screen: Screen, serve: Vector) -> (state: MainState)
        ensures
            state == Self::kickoff(screen, serve),
            screen.height >= RACKET_HEIGHT_PIXELS ==> state.rackets_on_screen(screen),
    {
        let middle = screen.center();
        MainState {
            player_1_pos: Point { x: RACKET_WIDTH_HALF, y: middle.y },
            player_2_pos: Point { x: screen.right() - RACKET_WIDTH_HALF, y: middle.y },
            ball_pos: middle,
            ball_vel: serve,
            player_1_score: 0,
            player_2_score: 0,
        }
    }

    /// Starts a game on `screen`: the rackets at half height against the left
    /// and the right edge, the ball in the middle, no points, and the ball
    /// served at [`BALL_SPEED`] along each axis towards a side chosen by
    /// chance.
    pub fn new(screen: Screen) -> (state: MainState)
        ensures
            state == Self::kickoff(screen, state.ball_vel),
            is_serve(state.ball_vel),
            screen.height >= RACKET_HEIGHT_PIXELS ==> state.rackets_on_screen(screen),
    {
        let mut serve = Vector { x: 0, y: 0 };
        randomize_vec(&mut serve, BALL_SPEED, BALL_SPEED);
        Self::with_serve(screen, serve)
    }

    /// Moves the rackets and the ball for a frame, without testing the ball
    /// against the edges: each racket follows its keys and stays on the
    /// screen, and the ball flies straight on.
    pub fn advance(&mut self, frame: &Frame)
        ensures
            *final(self) == old(self).moved(*frame),
    {
        move_racket(
            &mut self.player_1_pos,
            frame.keys.player_1_up,
            frame.keys.player_1_down,
            frame.dt,
            frame.screen.height,
        );
        move_racket(
            &mut self.player_2_pos,
            frame.keys.player_2_up,
            frame.keys.player_2_down,
            frame.dt,
            frame.screen.height,
        );
        integrate(&mut self.ball_pos, self.ball_vel, frame.dt);
    }

    /// Plays a frame with the serve given: the rackets and the ball move, and
    /// a ball that has left the court on the left or on the right comes back
    /// to the middle of the screen with velocity `serve`, while the player on
    /// the other side gains a point.
    pub fn step(&mut self, frame: &Frame, serve: Vector)
        requires
            old(self).can_score(),
        ensures
            *final(self) == old(self).played(*frame, serve),
    {
        self.advance(frame);
        if self.ball_pos.x < 0 {
            self.ball_pos = frame.screen.center();
            self.ball_vel = serve;
            self.player_2_score = self.player_2_score + 1;
        } else if self.ball_pos.x > frame.screen.bottom() {
            self.ball_pos = frame.screen.center();
            self.ball_vel = serve;
            self.player_1_score = self.player_1_score + 1;
        }
    }

    /// Plays a frame: the rackets and the ball move, and a ball that has left
    /// the court on the left or on the right comes back to the middle of the
    /// screen, served at [`BALL_SPEED`] along each axis towards a side chosen
    /// by chance, while the player on the other side gains a point. While the
    /// ball is in play its velocity does not change.
    pub fn update(&mut self, frame: &Frame)
        requires
            old(self).can_score(),
        ensures
            *final(self) == old(self).played(*frame, final(self).ball_vel),
            old(self).exits_left(*frame) || old(self).exits_right(*frame) ==> is_serve(
                final(self).ball_vel,
            ),
            frame.screen.height >= RACKET_HEIGHT_PIXELS ==> final(self).rackets_on_screen(
                frame.screen,
            ),
            final(self).player_1_score >= old(self).player_1_score,
            final(self).player_2_score >= old(self).player_2_score,
    {
        self.advance(frame);
        if self.ball_pos.x < 0 {
            self.ball_pos = frame.screen.center();
            randomize_vec(&mut self.ball_vel, BALL_SPEED, BALL_SPEED);
            self.player_2_score = self.player_2_score + 1;
        } else if self.ball_pos.x > frame.screen.bottom() {
            self.ball_pos = frame.screen.center();
            randomize_vec(&mut self.ball_vel, BALL_SPEED, BALL_SPEED);
            self.player_1_score = self.player_1_score + 1;
        }
    }
}

/// A game starts with both rackets on the screen, as long as the screen is
/// high enough to hold a racket.
pub proof fn lemma_kickoff_rackets_on_screen(screen: Screen, serve: Vector)
    requires
        screen.height >= RACKET_HEIGHT_PIXELS,
    ensures
        MainState::kickoff(screen, serve).rackets_on_screen(screen),
{
}

/// After a frame both rackets lie wholly on the screen, whatever keys are
/// held, however long the frame and wherever the rackets were, as long as the
/// screen is high enough to hold a racket. They never move sideways.
pub proof fn lemma_rackets_stay_on_screen(state: MainState, frame: Frame, serve: Vector)
    ensures
        frame.screen.height >= RACKET_HEIGHT_PIXELS ==> state.played(frame, serve).rackets_on_screen(
            frame.screen,
        ),
        state.played(frame, serve).player_1_pos.x == state.player_1_pos.x,
        state.played(frame, serve).player_2_pos.x == state.player_2_pos.x,
{
}

/// With no key held, rackets that are on the screen stay where they are.
pub proof fn lemma_idle_rackets_rest(state: MainState, frame: Frame, serve: Vector)
    requires
        !frame.keys.player_1_up && !frame.keys.player_1_down,
        !frame.keys.player_2_up && !frame.keys.player_2_down,
        state.rackets_on_screen(frame.screen),
    ensures
        state.played(frame, serve).player_1_pos == state.player_1_pos,
        state.played(frame, serve).player_2_pos == state.player_2_pos,
{
    lemma_idle_racket_rests(state.player_1_pos.y as int, frame.dt as int, frame.screen.height);
    lemma_idle_racket_rests(state.player_2_pos.y as int, frame.dt as int, frame.screen.height);
}

/// Before the ball is tested against the edges it has flown straight: its
/// position is the old one plus velocity times time, exactly, while that stays
/// inside the coordinate range.
pub proof fn lemma_ball_flies_straight(state: MainState, frame: Frame)
    requires
        i64::MIN <= state.ball_pos.x + state.ball_vel.x * frame.dt <= i64::MAX,
        i64::MIN <= state.ball_pos.y + state.ball_vel.y * frame.dt <= i64::MAX,
    ensures
        state.moved(frame).ball_pos.x == state.ball_pos.x + state.ball_vel.x * frame.dt,
        state.moved(frame).ball_pos.y == state.ball_pos.y + state.ball_vel.y * frame.dt,
{
}

/// A ball that stays in the court flies on: it is where its flight took it,
/// its velocity is unchanged and nobody scores.
pub proof fn lemma_ball_in_play(state: MainState, frame: Frame, serve: Vector)
    requires
        !state.exits_left(frame),
        !state.exits_right(frame),
    ensures
        state.played(frame, serve).ball_pos == flown(state.ball_pos, state.ball_vel, frame.dt),
        state.played(frame, serve).ball_vel == state.ball_vel,
        state.played(frame, serve).player_1_score == state.player_1_score,
        state.played(frame, serve).player_2_score == state.player_2_score,
{
}

/// When the ball leaves on the left it comes back to the middle of the screen
/// with the new serve, player 2 gains exactly one point and player 1 none.
/// This holds on every screen, whatever its shape.
pub proof fn lemma_left_exit_scores_right(state: MainState, frame: Frame, serve: Vector)
    requires
        state.can_score(),
        state.exits_left(frame),
    ensures
        state.played(frame, serve).ball_pos == frame.screen.spec_center(),
        2 * state.played(frame, serve).ball_pos.x == frame.screen.spec_right(),
        2 * state.played(frame, serve).ball_pos.y == frame.screen.spec_bottom(),
        state.played(frame, serve).ball_vel == serve,
        state.played(frame, serve).player_2_score == state.player_2_score + 1,
        state.played(frame, serve).player_1_score == state.player_1_score,
{
}

/// When the ball leaves on the right it comes back to the middle of the
/// screen with the new serve, player 1 gains exactly one point and player 2
/// none.
pub proof fn lemma_right_exit_scores_left(state: MainState, frame: Frame, serve: Vector)
    requires
        state.can_score(),
        state.exits_right(frame),
    ensures
        state.played(frame, serve).ball_pos == frame.screen.spec_center(),
        state.played(frame, serve).ball_vel == serve,
        state.played(frame, serve).player_1_score == state.player_1_score + 1,
        state.played(frame, serve).player_2_score == state.player_2_score,
{
}

/// The ball leaves on one side at most, so a frame scores for one player at
/// most: the two scores together rise by one point or not at all.
pub proof fn lemma_one_exit_at_most(state: MainState, frame: Frame, serve: Vector)
    requires
        state.can_score(),
    ensures
        !(state.exits_left(frame) && state.exits_right(frame)),
        state.played(frame, serve).player_1_score + state.played(frame, serve).player_2_score
            <= state.player_1_score + state.player_2_score + 1,
        state.exits_left(frame) ==> state.played(frame, serve).player_1_score
            == state.player_1_score,
        state.exits_right(frame) ==> state.played(frame, serve).player_2_score
            == state.player_2_score,
{
}

/// A score never falls, and it rises by at most one point in a frame.
pub proof fn lemma_scores_never_fall(state: MainState, frame: Frame, serve: Vector)
    requires
        state.can_score(),
    ensures
        state.player_1_score <= state.played(frame, serve).player_1_score <= state.player_1_score
            + 1,
        state.player_2_score <= state.played(frame, serve).player_2_score <= state.player_2_score
            + 1,
{
}

/// Leaving the court is a matter of where the ball is, not of whether it
/// moved: in a frame that takes no time a ball to the left of the court is
/// served again and player 2 gains a point.
pub proof fn lemma_exit_is_by_position(state: MainState, frame: Frame, serve: Vector)
    requires
        state.can_score(),
        frame.dt == 0,
        out_left(state.ball_pos),
    ensures
        state.exits_left(frame),
        state.played(frame, serve).ball_pos == frame.screen.spec_center(),
        state.played(frame, serve).ball_vel == serve,
        state.played(frame, serve).player_2_score == state.player_2_score + 1,
{
}

} // verus!
