//! The game state and the collision and movement engine.
//!
//! A frame advances the world in a fixed order: the last surviving brick
//! drifts, the paddle moves under the edge-detected input, then the ball
//! runs its fixed number of unit sub-steps, one axis at a time, x before y.
//! Resolving one axis at a time keeps the ball from tunnelling through thin
//! edges and fixes a deterministic tie-break between simultaneous hits.
//!
//! The whole engine is pure: it maps the previous state and the input word
//! to the next state. The driver around it does the hardware work — waiting
//! for the vertical blank, reading the input register, drawing, feeding the
//! audio FIFO — and owns nothing of the rules.

use vstd::prelude::*;

use crate::audio::{
    samples_needed, spec_run, spec_samples_needed, synth_wf, AudioSynth, AUDIO_DEATH_BLOOP,
    AUDIO_REFLECT_BLEEP,
};
use crate::geometry::{
    spec_center, spec_clamp_x_into, spec_encloses, spec_intersects, spec_offset,
    spec_positive_size, Rect, Vec2i,
};
use crate::input::{edge_bits, spec_edge_bits, DPAD_LEFT, DPAD_RIGHT, FACE_SELECT, FACE_START};

verus! {

/// Width of the screen in pixels.
pub const DISPLAY_WIDTH: i32 = 266;

/// Height of the screen in pixels.
pub const DISPLAY_HEIGHT: i32 = 240;

/// Paddle width.
pub const PLAYER_SIZE_X: i32 = 40;

/// Paddle height.
pub const PLAYER_SIZE_Y: i32 = 8;

/// Pixels the paddle moves per frame while a direction is held.
pub const PLAYER_SPEED: i32 = 2;

/// Midpoint the paddle is built around at the start: centred horizontally,
/// 20 pixels of clearance plus half the paddle height above the bottom.
pub const PLAYER_START_X: i32 = 133;

pub const PLAYER_START_Y: i32 = DISPLAY_HEIGHT - 20 - 4;

/// The ball is square, this many pixels on a side.
pub const BALL_SIZE: i32 = 4;

/// Unit sub-steps the ball takes per frame; deliberately faster than the
/// paddle.
pub const BALL_SPEED: i32 = 3;

/// Midpoint the ball is built around at the start.
pub const BALL_START_X: i32 = PLAYER_START_X;

pub const BALL_START_Y: i32 = PLAYER_START_Y - 30;

/// The bricks start in a grid of this many columns and rows.
pub const BRICK_COLS: i32 = 8;

pub const BRICK_ROWS: i32 = 4;

/// Size of one brick.
pub const BRICK_SIZE_X: i32 = 20;

pub const BRICK_SIZE_Y: i32 = 12;

/// Space between neighbouring bricks.
pub const BRICK_PADDING_X: i32 = 10;

pub const BRICK_PADDING_Y: i32 = 20;

/// Distance between the top-left corners of neighbouring bricks: one brick
/// plus one padding gap.
pub const BRICK_STRIDE_X: i32 = 30;

pub const BRICK_STRIDE_Y: i32 = 32;

/// Top-left corner of the top-left brick: half of what the display width
/// leaves over once the grid's bricks and padding have taken theirs, which
/// centres the grid horizontally.
pub const BRICK_ORIGIN_X: i32 = 18;

pub const BRICK_ORIGIN_Y: i32 = 20;

/// A destructible block. Removed from the collection, not hidden, when the
/// ball destroys it.
#[derive(Clone, Copy, PartialEq, Eq, Structural, Debug)]
pub struct Brick {
    pub rect: Rect,
}

/// The ball: a fixed-size square moving diagonally, one unit per axis per
/// sub-step. Each component of `facing` is -1 or 1.
#[derive(Clone, Copy, PartialEq, Eq, Structural, Debug)]
pub struct Ball {
    pub rect: Rect,
    pub facing: Vec2i,
}

/// The paddle: fixed size, horizontal motion only, clamped to the screen.
/// `facing` is -1, 0 or 1 for moving left, standing still or moving right.
#[derive(Clone, Copy, PartialEq, Eq, Structural, Debug)]
pub struct Paddle {
    pub rect: Rect,
    pub facing: i32,
}

/// The whole game as the engine sees it.
pub struct Game {
    /// The screen rectangle everything is kept inside.
    pub screen: Rect,
    pub paddle: Paddle,
    pub ball: Ball,
    /// Surviving bricks; the collection's order is the collision tie-break.
    pub bricks: Vec<Brick>,
    /// Set and cleared by the select button; also forced on for good once
    /// the game-over tone has played out.
    pub paused: bool,
    /// The ball fell out at the bottom; mechanics are frozen for good.
    pub dead: bool,
    /// The last brick is gone; mechanics are frozen for good.
    pub won: bool,
    /// When set, the bottom edge reflects like the other three and the game
    /// cannot be lost.
    pub immortal: bool,
    /// Direction of the last surviving brick: 0 until only one brick is
    /// left, then -1 or 1.
    pub last_brick_facing: i32,
    /// The input word of the previous frame, for edge detection.
    pub prev_input: u16,
    pub audio: AudioSynth,
}

/// The mathematical image of [`Game`]: the same state with the brick
/// collection as a sequence.
pub ghost struct GameModel {
    pub screen: Rect,
    pub paddle: Paddle,
    pub ball: Ball,
    pub bricks: Seq<Brick>,
    pub paused: bool,
    pub dead: bool,
    pub won: bool,
    pub immortal: bool,
    pub last_brick_facing: i32,
    pub prev_input: u16,
    pub audio: AudioSynth,
}

impl View for Game {
    type V = GameModel;

    open spec fn view(&self) -> GameModel {
        GameModel {
            screen: self.screen,
            paddle: self.paddle,
            ball: self.ball,
            bricks: self.bricks@,
            paused: self.paused,
            dead: self.dead,
            won: self.won,
            immortal: self.immortal,
            last_brick_facing: self.last_brick_facing,
            prev_input: self.prev_input,
            audio: self.audio,
        }
    }
}

/// The screen rectangle: the display, rooted at the origin.
pub open spec fn spec_screen() -> Rect {
    Rect {
        top_left: Vec2i { x: 0, y: 0 },
        bottom_right: Vec2i { x: DISPLAY_WIDTH, y: DISPLAY_HEIGHT },
    }
}

/// A live brick: positive size, on screen, and narrow enough that it can
/// always step one pixel sideways and back.
pub open spec fn brick_wf(screen: Rect, b: Brick) -> bool {
    &&& spec_positive_size(b.rect)
    &&& spec_encloses(screen, b.rect)
    &&& b.rect.bottom_right.x - b.rect.top_left.x + 1 <= screen.bottom_right.x
        - screen.top_left.x
}

/// Where the ball can be. A rejected move steps the ball backwards, so the
/// ball can stand up to [`BALL_SIZE`] pixels outside the screen on each
/// side; and whenever it stands at that outermost depth, its facing on that
/// axis points outward, which is what the wall reflection rule leaves behind
/// and what guarantees the next sub-step on that axis comes back in.
pub open spec fn ball_band(screen: Rect, b: Ball) -> bool {
    let depth_left = screen.top_left.x - b.rect.top_left.x;
    let depth_right = b.rect.bottom_right.x - screen.bottom_right.x;
    let depth_top = screen.top_left.y - b.rect.top_left.y;
    let depth_bottom = b.rect.bottom_right.y - screen.bottom_right.y;
    &&& depth_left <= BALL_SIZE
    &&& (depth_left == BALL_SIZE ==> b.facing.x == -1)
    &&& depth_right <= BALL_SIZE
    &&& (depth_right == BALL_SIZE ==> b.facing.x == 1)
    &&& depth_top <= BALL_SIZE
    &&& (depth_top == BALL_SIZE ==> b.facing.y == -1)
    &&& depth_bottom <= BALL_SIZE
    &&& (depth_bottom == BALL_SIZE ==> b.facing.y == 1)
}

/// The game invariant: every entity is sound and the frame step keeps it so.
pub open spec fn game_wf(g: GameModel) -> bool {
    &&& g.screen == spec_screen()
    &&& spec_positive_size(g.paddle.rect)
    &&& spec_encloses(g.screen, g.paddle.rect)
    &&& g.paddle.rect.bottom_right.x - g.paddle.rect.top_left.x <= g.screen.bottom_right.x
        - g.screen.top_left.x
    &&& (g.paddle.facing == -1 || g.paddle.facing == 0 || g.paddle.facing == 1)
    &&& g.ball.rect.bottom_right.x - g.ball.rect.top_left.x == BALL_SIZE
    &&& g.ball.rect.bottom_right.y - g.ball.rect.top_left.y == BALL_SIZE
    &&& (g.ball.facing.x == -1 || g.ball.facing.x == 1)
    &&& (g.ball.facing.y == -1 || g.ball.facing.y == 1)
    &&& ball_band(g.screen, g.ball)
    &&& forall|i: int| 0 <= i < g.bricks.len() ==> brick_wf(g.screen, #[trigger] g.bricks[i])
    &&& (g.last_brick_facing == -1 || g.last_brick_facing == 0 || g.last_brick_facing == 1)
    &&& synth_wf(g.audio)
}

/// The ball's velocity for one axis sub-step: the unit vector of the axis
/// (0 is x, 1 is y) scaled by the facing.
pub open spec fn spec_axis_vel(facing: Vec2i, axis: int) -> Vec2i {
    if axis == 0 {
        Vec2i { x: facing.x, y: 0 }
    } else {
        Vec2i { x: 0, y: facing.y }
    }
}

/// The opposite of `v`.
pub open spec fn spec_neg(v: Vec2i) -> Vec2i {
    Vec2i { x: (-v.x) as i32, y: (-v.y) as i32 }
}

/// `facing` reflected on one axis: that component changes sign, the other
/// is kept.
pub open spec fn spec_flip(facing: Vec2i, axis: int) -> Vec2i {
    if axis == 0 {
        Vec2i { x: (-facing.x) as i32, y: facing.y }
    } else {
        Vec2i { x: facing.x, y: (-facing.y) as i32 }
    }
}

/// The first brick at or after position `i` whose rectangle the candidate
/// overlaps; earlier bricks win, which is the collision tie-break.
pub open spec fn spec_first_hit_from(bricks: Seq<Brick>, cand: Rect, i: int) -> Option<int>
    decreases bricks.len() - i
        when 0 <= i <= bricks.len()
{
    if i >= bricks.len() {
        None
    } else if spec_intersects(bricks[i].rect, cand) {
        Some(i)
    } else {
        spec_first_hit_from(bricks, cand, i + 1)
    }
}

/// The first brick the candidate rectangle overlaps, if any.
pub open spec fn spec_first_hit(bricks: Seq<Brick>, cand: Rect) -> Option<int> {
    spec_first_hit_from(bricks, cand, 0)
}

/// One axis sub-step of the ball, the heart of the collision engine.
///
/// The candidate rectangle is the ball moved one pixel along the axis. In
/// order: a candidate leaving the screen while moving down ends the game
/// (unless immortal); any other candidate leaving the screen is rejected;
/// otherwise a candidate overlapping the paddle is rejected, and a downward
/// hit re-steers the ball's horizontal facing toward the paddle half its
/// centre is over; otherwise the first overlapped brick rejects the
/// candidate and is destroyed, winning the game if it was the last. An
/// accepted candidate becomes the ball's rectangle; a rejected one reflects
/// the ball instead: the facing flips on this axis and the ball steps one
/// pixel backwards, with the reflect bleep sounding.
pub open spec fn spec_axis_step(g: GameModel, axis: int) -> GameModel {
    let v = spec_axis_vel(g.ball.facing, axis);
    let cand = spec_offset(g.ball.rect, v);
    let off_screen = !spec_encloses(g.screen, cand);
    if off_screen && v.y > 0 && !g.immortal {
        GameModel {
            dead: true,
            audio: AudioSynth { blooping: AUDIO_DEATH_BLOOP, ..g.audio },
            ..g
        }
    } else {
        let paddle_hit = !off_screen && spec_intersects(g.paddle.rect, cand);
        let hit = if off_screen || paddle_hit {
            None
        } else {
            spec_first_hit(g.bricks, cand)
        };
        let steered = if paddle_hit && v.y > 0 {
            Vec2i {
                x: if spec_center(g.ball.rect).x > spec_center(g.paddle.rect).x {
                    1i32
                } else {
                    -1i32
                },
                y: g.ball.facing.y,
            }
        } else {
            g.ball.facing
        };
        let bleep_high = if hit is Some {
            true
        } else if off_screen || paddle_hit {
            false
        } else {
            g.audio.bleep_high
        };
        let bricks = if hit is Some {
            g.bricks.remove(hit->Some_0)
        } else {
            g.bricks
        };
        if hit is Some && bricks.len() == 0 {
            GameModel {
                bricks,
                won: true,
                audio: AudioSynth { bleep_high, blooping: AUDIO_DEATH_BLOOP, ..g.audio },
                ..g
            }
        } else if off_screen || paddle_hit || hit is Some {
            GameModel {
                ball: Ball {
                    rect: spec_offset(g.ball.rect, spec_neg(v)),
                    facing: spec_flip(steered, axis),
                },
                bricks,
                audio: AudioSynth {
                    bleep_high,
                    bleeping: AUDIO_REFLECT_BLEEP,
                    ..g.audio
                },
                ..g
            }
        } else {
            GameModel { ball: Ball { rect: cand, facing: steered }, ..g }
        }
    }
}

/// An axis sub-step that does nothing once the game has ended this frame:
/// death and victory abandon the rest of the ball's sub-steps.
pub open spec fn spec_axis_step_live(g: GameModel, axis: int) -> GameModel {
    if g.dead || g.won {
        g
    } else {
        spec_axis_step(g, axis)
    }
}

/// One full sub-step: the x axis, then the y axis.
pub open spec fn spec_sub_step(g: GameModel) -> GameModel {
    spec_axis_step_live(spec_axis_step_live(g, 0), 1)
}

/// `n` sub-steps in a row.
pub open spec fn spec_sub_steps(g: GameModel, n: nat) -> GameModel
    decreases n,
{
    if n == 0 {
        g
    } else {
        spec_sub_step(spec_sub_steps(g, (n - 1) as nat))
    }
}

/// The ball's whole frame: [`BALL_SPEED`] sub-steps.
pub open spec fn spec_ball_frame(g: GameModel) -> GameModel {
    spec_sub_steps(g, BALL_SPEED as nat)
}

/// The paddle facing the input selects. Holding exactly one of left and
/// right moves that way; holding neither stands still. Holding both keeps
/// the previous facing unless one of the two was pressed on this very
/// frame, in which case the fresh press wins, left before right.
pub open spec fn spec_paddle_facing(facing: i32, key: u16, edge: u16) -> i32 {
    if key & (DPAD_LEFT | DPAD_RIGHT) == (DPAD_LEFT | DPAD_RIGHT) {
        if edge & DPAD_LEFT != 0 {
            -1i32
        } else if edge & DPAD_RIGHT != 0 {
            1i32
        } else {
            facing
        }
    } else {
        if key & DPAD_LEFT != 0 {
            -1i32
        } else if key & DPAD_RIGHT != 0 {
            1i32
        } else {
            0i32
        }
    }
}

/// The paddle after one frame: the new facing applied at [`PLAYER_SPEED`]
/// pixels, then clamped back onto the screen.
pub open spec fn spec_paddle_step(p: Paddle, screen: Rect, key: u16, edge: u16) -> Paddle {
    let facing = spec_paddle_facing(p.facing, key, edge);
    Paddle {
        rect: spec_clamp_x_into(
            spec_offset(p.rect, Vec2i { x: (facing * PLAYER_SPEED) as i32, y: 0 }),
            screen,
        ),
        facing,
    }
}

/// The last surviving brick's autonomous drift. On its first such frame its
/// direction is picked toward the screen's centre; each frame it moves one
/// pixel and reverses whenever the moved rectangle would leave the screen.
/// Nothing happens while more than one brick survives.
pub open spec fn spec_bricks_step(g: GameModel) -> GameModel {
    if g.bricks.len() == 1 {
        let brick = g.bricks[0];
        let facing = if g.last_brick_facing == 0 {
            if spec_center(brick.rect).x > spec_center(g.screen).x {
                -1i32
            } else {
                1i32
            }
        } else {
            g.last_brick_facing
        };
        let moved = spec_offset(brick.rect, Vec2i { x: facing, y: 0 });
        if spec_encloses(g.screen, moved) {
            GameModel {
                bricks: seq![Brick { rect: moved }],
                last_brick_facing: facing,
                ..g
            }
        } else {
            GameModel {
                bricks: seq![
                    Brick {
                        rect: spec_offset(brick.rect, Vec2i { x: (-facing) as i32, y: 0 }),
                    },
                ],
                last_brick_facing: (-facing) as i32,
                ..g
            }
        }
    } else {
        g
    }
}

/// One frame of mechanics, in the fixed order: brick drift, paddle, ball.
pub open spec fn spec_mechanics(g: GameModel, key: u16, edge: u16) -> GameModel {
    let after_bricks = spec_bricks_step(g);
    let after_paddle = GameModel {
        paddle: spec_paddle_step(after_bricks.paddle, after_bricks.screen, key, edge),
        ..after_bricks
    };
    spec_ball_frame(after_paddle)
}

/// The state transition of one frame, before audio: the edge mask is
/// derived from the stored previous input, select toggles pause (never
/// once dead), and mechanics run only in the running phase.
pub open spec fn spec_frame_mechanics(g: GameModel, input: u16) -> GameModel {
    let edge = spec_edge_bits(g.prev_input, input);
    let paused = if !g.dead && edge & FACE_SELECT != 0 {
        !g.paused
    } else {
        g.paused
    };
    let g1 = GameModel { paused, prev_input: input, ..g };
    if !g1.paused && !g1.dead && !g1.won {
        spec_mechanics(g1, input, edge)
    } else {
        g1
    }
}

/// Whether this frame's input asks for a full system reset: a fresh press
/// of the start button.
pub open spec fn spec_wants_reset(g: GameModel, input: u16) -> bool {
    spec_edge_bits(g.prev_input, input) & FACE_START != 0
}

/// One whole frame: mechanics, then enough audio samples to top the
/// hardware buffer back up to its target fill. Yields the next state and
/// the emitted samples.
pub open spec fn spec_frame(g: GameModel, input: u16, fill: u32) -> (GameModel, Seq<u32>) {
    let m = spec_frame_mechanics(g, input);
    let (audio, paused, samples) = spec_run(
        m.audio,
        m.paused,
        m.won,
        spec_samples_needed(fill) as nat,
    );
    (GameModel { audio, paused, ..m }, samples)
}

/// One brick of the starting grid, by column and row.
pub open spec fn spec_brick_at(col: int, row: int) -> Brick {
    Brick {
        rect: Rect {
            top_left: Vec2i {
                x: (BRICK_ORIGIN_X + col * BRICK_STRIDE_X) as i32,
                y: (BRICK_ORIGIN_Y + row * BRICK_STRIDE_Y) as i32,
            },
            bottom_right: Vec2i {
                x: (BRICK_ORIGIN_X + col * BRICK_STRIDE_X + BRICK_SIZE_X) as i32,
                y: (BRICK_ORIGIN_Y + row * BRICK_STRIDE_Y + BRICK_SIZE_Y) as i32,
            },
        },
    }
}

/// The full starting grid, rows laid out top to bottom, each row left to
/// right.
pub open spec fn spec_initial_bricks() -> Seq<Brick> {
    Seq::new(
        (BRICK_ROWS * BRICK_COLS) as nat,
        |i: int| spec_brick_at(i % (BRICK_COLS as int), i / (BRICK_COLS as int)),
    )
}

/// The game as it starts: paddle and ball at their fixed start positions,
/// the full brick grid, everything still. The one random choice of a run is
/// the ball's first horizontal direction: right when `seed_bit` is set,
/// left when it is not.
pub open spec fn spec_initial_game(seed_bit: bool) -> GameModel {
    GameModel {
        screen: spec_screen(),
        paddle: Paddle {
            rect: crate::geometry::spec_centered_at(
                Vec2i { x: PLAYER_START_X, y: PLAYER_START_Y },
                Vec2i { x: PLAYER_SIZE_X, y: PLAYER_SIZE_Y },
            ),
            facing: 0,
        },
        ball: Ball {
            rect: crate::geometry::spec_centered_at(
                Vec2i { x: BALL_START_X, y: BALL_START_Y },
                Vec2i { x: BALL_SIZE, y: BALL_SIZE },
            ),
            facing: Vec2i { x: if seed_bit { 1i32 } else { -1i32 }, y: -1i32 },
        },
        bricks: spec_initial_bricks(),
        paused: false,
        dead: false,
        won: false,
        immortal: false,
        last_brick_facing: 0,
        prev_input: 0,
        audio: AudioSynth {
            wave: 0,
            lfo: (crate::audio::AUDIO_LFO_MAX / 4) as u16,
            bleep_high: false,
            bleeping: 0,
            blooping: 0,
        },
    }
}

/// Finds the first brick the candidate rectangle overlaps. Earlier bricks
/// win: this is the whole of the collision tie-break.
pub fn brick_hit(bricks: &Vec<Brick>, cand: Rect) -> (r: Option<usize>)
    requires
        cand.bottom_right.x > i32::MIN,
        cand.bottom_right.y > i32::MIN,
    ensures
        r is Some <==> spec_first_hit(bricks@, cand) is Some,
        r is Some ==> spec_first_hit(bricks@, cand) == Some(r->Some_0 as int),
        r is Some ==> r->Some_0 < bricks@.len(),
{
    let mut i: usize = 0;
    while i < bricks.len()
        invariant
            i <= bricks.len(),
            cand.bottom_right.x > i32::MIN,
            cand.bottom_right.y > i32::MIN,
            spec_first_hit(bricks@, cand) == spec_first_hit_from(bricks@, cand, i as int),
        decreases bricks.len() - i,
    {
        if bricks[i].rect.intersects(cand) {
            return Some(i);
        }
        i = i + 1;
    }
    None
}

/// What the first-hit search finds is really the first hit: the brick it
/// names overlaps the candidate and no earlier brick does, and when it
/// finds nothing, no brick overlaps at all.
pub proof fn lemma_first_hit_is_first(bricks: Seq<Brick>, cand: Rect)
    ensures
        spec_first_hit(bricks, cand) matches Some(i) ==> 0 <= i < bricks.len()
            && spec_intersects(bricks[i].rect, cand) && forall|j: int|
            0 <= j < i ==> !spec_intersects(#[trigger] bricks[j].rect, cand),
        spec_first_hit(bricks, cand) is None ==> forall|j: int|
            0 <= j < bricks.len() ==> !spec_intersects(#[trigger] bricks[j].rect, cand),
{
    lemma_first_hit_from_is_first(bricks, cand, 0);
}

proof fn lemma_first_hit_from_is_first(bricks: Seq<Brick>, cand: Rect, i: int)
    requires
        0 <= i <= bricks.len(),
    ensures
        spec_first_hit_from(bricks, cand, i) matches Some(k) ==> i <= k < bricks.len()
            && spec_intersects(bricks[k].rect, cand) && forall|j: int|
            i <= j < k ==> !spec_intersects(#[trigger] bricks[j].rect, cand),
        spec_first_hit_from(bricks, cand, i) is None ==> forall|j: int|
            i <= j < bricks.len() ==> !spec_intersects(#[trigger] bricks[j].rect, cand),
    decreases bricks.len() - i,
{
    if i < bricks.len() && !spec_intersects(bricks[i].rect, cand) {
        lemma_first_hit_from_is_first(bricks, cand, i + 1);
    }
}

/// One axis sub-step keeps the game invariant.
pub proof fn lemma_axis_step_wf(g: GameModel, axis: int)
    requires
        game_wf(g),
        0 <= axis <= 1,
    ensures
        game_wf(spec_axis_step(g, axis)),
{
    let g1 = spec_axis_step(g, axis);
    let v = spec_axis_vel(g.ball.facing, axis);
    let cand = spec_offset(g.ball.rect, v);
    let hit = spec_first_hit(g.bricks, cand);
    lemma_first_hit_is_first(g.bricks, cand);
    if hit is Some {
        g.bricks.remove_ensures(hit->Some_0);
    }
    assert(forall|i: int|
        0 <= i < g1.bricks.len() ==> brick_wf(g1.screen, #[trigger] g1.bricks[i]));
}

/// A full sub-step (both axes, skipped once the game has ended) keeps the
/// game invariant.
pub proof fn lemma_sub_step_wf(g: GameModel)
    requires
        game_wf(g),
    ensures
        game_wf(spec_sub_step(g)),
{
    if !g.dead && !g.won {
        lemma_axis_step_wf(g, 0);
    }
    let g1 = spec_axis_step_live(g, 0);
    if !g1.dead && !g1.won {
        lemma_axis_step_wf(g1, 1);
    }
}

/// Any number of sub-steps keeps the game invariant.
pub proof fn lemma_sub_steps_wf(g: GameModel, n: nat)
    requires
        game_wf(g),
    ensures
        game_wf(spec_sub_steps(g, n)),
    decreases n,
{
    if n > 0 {
        lemma_sub_steps_wf(g, (n - 1) as nat);
        lemma_sub_step_wf(spec_sub_steps(g, (n - 1) as nat));
    }
}

/// The four game phases, derived from the state flags with death taking
/// precedence over victory and victory over pause.
#[derive(Clone, Copy, PartialEq, Eq, Structural, Debug)]
pub enum Phase {
    Running,
    Paused,
    Dead,
    Won,
}

/// The phase the flags spell.
pub open spec fn spec_phase(g: GameModel) -> Phase {
    if g.dead {
        Phase::Dead
    } else if g.won {
        Phase::Won
    } else if g.paused {
        Phase::Paused
    } else {
        Phase::Running
    }
}

impl Game {
    /// The game as it starts. `seed_bit` is the one random input of a run —
    /// the platform's weak entropy bit — and steers the ball right when set,
    /// left when not.
    pub fn new(seed_bit: bool) -> (g: Game)
        ensures
            g@ == spec_initial_game(seed_bit),
            game_wf(g@),
    {
        let screen = Rect::new(
            Vec2i { x: 0, y: 0 },
            Vec2i { x: DISPLAY_WIDTH, y: DISPLAY_HEIGHT },
        );
        let paddle = Paddle {
            rect: Rect::centered_at(
                Vec2i { x: PLAYER_START_X, y: PLAYER_START_Y },
                Vec2i { x: PLAYER_SIZE_X, y: PLAYER_SIZE_Y },
            ),
            facing: 0,
        };
        let ball = Ball {
            rect: Rect::centered_at(
                Vec2i { x: BALL_START_X, y: BALL_START_Y },
                Vec2i { x: BALL_SIZE, y: BALL_SIZE },
            ),
            facing: Vec2i { x: if seed_bit { 1 } else { -1 }, y: -1 },
        };
        let mut bricks: Vec<Brick> = Vec::new();
        let mut row: i32 = 0;
        while row < BRICK_ROWS
            invariant
                0 <= row <= BRICK_ROWS,
                bricks@.len() == row * BRICK_COLS,
                forall|i: int|
                    0 <= i < bricks@.len() ==> #[trigger] bricks@[i] == spec_brick_at(
                        i % (BRICK_COLS as int),
                        i / (BRICK_COLS as int),
                    ),
            decreases BRICK_ROWS - row,
        {
            let mut col: i32 = 0;
            while col < BRICK_COLS
                invariant
                    0 <= col <= BRICK_COLS,
                    0 <= row < BRICK_ROWS,
                    bricks@.len() == row * BRICK_COLS + col,
                    forall|i: int|
                        0 <= i < bricks@.len() ==> #[trigger] bricks@[i] == spec_brick_at(
                            i % (BRICK_COLS as int),
                            i / (BRICK_COLS as int),
                        ),
                decreases BRICK_COLS - col,
            {
                proof {
                    assert(0 <= col * BRICK_STRIDE_X <= 210 && 0 <= row * BRICK_STRIDE_Y
                        <= 96) by (nonlinear_arith)
                        requires
                            0 <= col < 8,
                            0 <= row < 4,
                    ;
                }
                let ul = Vec2i {
                    x: BRICK_ORIGIN_X + col * BRICK_STRIDE_X,
                    y: BRICK_ORIGIN_Y + row * BRICK_STRIDE_Y,
                };
                bricks.push(
                    Brick {
                        rect: Rect::new(
                            ul,
                            Vec2i { x: ul.x + BRICK_SIZE_X, y: ul.y + BRICK_SIZE_Y },
                        ),
                    },
                );
                proof {
                    assert((row * 8 + col) % 8 == col && (row * 8 + col) / 8 == row)
                        by (nonlinear_arith)
                        requires
                            0 <= col < 8,
                            0 <= row,
                    ;
                }
                col = col + 1;
            }
            row = row + 1;
        }
        let game = Game {
            screen,
            paddle,
            ball,
            bricks,
            paused: false,
            dead: false,
            won: false,
            immortal: false,
            last_brick_facing: 0,
            prev_input: 0,
            audio: AudioSynth {
                wave: 0,
                lfo: crate::audio::AUDIO_LFO_MAX / 4,
                bleep_high: false,
                bleeping: 0,
                blooping: 0,
            },
        };
        proof {
            assert(game@.bricks =~= spec_initial_bricks());
            assert forall|i: int| 0 <= i < game@.bricks.len() implies brick_wf(
                spec_screen(),
                #[trigger] game@.bricks[i],
            ) by {
                assert(0 <= i % 8 < 8 && 0 <= i / 8 < 4) by (nonlinear_arith)
                    requires
                        0 <= i < 32,
                ;
            }
        }
        game
    }

    /// The phase the game is in.
    pub fn phase(&self) -> (p: Phase)
        ensures
            p == spec_phase(self@),
    {
        if self.dead {
            Phase::Dead
        } else if self.won {
            Phase::Won
        } else if self.paused {
            Phase::Paused
        } else {
            Phase::Running
        }
    }

    /// One axis sub-step of the ball; `axis` 0 moves along x, 1 along y.
    /// Implements exactly the candidate/reject/reflect rule of
    /// [`spec_axis_step`].
    #[verifier::rlimit(60)]
    pub fn ball_axis_step(&mut self, axis: usize)
        requires
            axis <= 1,
            game_wf(old(self)@),
        ensures
            final(self)@ == spec_axis_step(old(self)@, axis as int),
            game_wf(final(self)@),
    {
        proof {
            lemma_axis_step_wf(old(self)@, axis as int);
        }
        let v: Vec2i = if axis == 0 {
            Vec2i { x: self.ball.facing.x, y: 0 }
        } else {
            Vec2i { x: 0, y: self.ball.facing.y }
        };
        let cand = self.ball.rect.offset(v);
        let off_screen = !self.screen.encloses(cand);
        if off_screen && v.y > 0 && !self.immortal {
            self.dead = true;
            self.audio.blooping = AUDIO_DEATH_BLOOP;
            return;
        }
        let paddle_hit = !off_screen && self.paddle.rect.intersects(cand);
        let hit: Option<usize> = if off_screen || paddle_hit {
            None
        } else {
            brick_hit(&self.bricks, cand)
        };
        if paddle_hit && v.y > 0 {
            let ball_center = self.ball.rect.center();
            let paddle_center = self.paddle.rect.center();
            self.ball.facing.x = if ball_center.x > paddle_center.x {
                1
            } else {
                -1
            };
        }
        match hit {
            Some(index) => {
                self.audio.bleep_high = true;
                let _ = self.bricks.remove(index);
                if self.bricks.len() == 0 {
                    self.won = true;
                    self.audio.blooping = AUDIO_DEATH_BLOOP;
                    return;
                }
            },
            None => {
                if off_screen || paddle_hit {
                    self.audio.bleep_high = false;
                }
            },
        }
        if off_screen || paddle_hit || hit.is_some() {
            self.ball.rect = self.ball.rect.offset(Vec2i { x: -v.x, y: -v.y });
            if axis == 0 {
                self.ball.facing.x = -self.ball.facing.x;
            } else {
                self.ball.facing.y = -self.ball.facing.y;
            }
            self.audio.bleeping = AUDIO_REFLECT_BLEEP;
        } else {
            self.ball.rect = cand;
        }
    }

    /// The ball's whole frame: [`BALL_SPEED`] sub-steps of one pixel per
    /// axis, x before y, abandoned as soon as the game ends.
    pub fn ball_frame(&mut self)
        requires
            game_wf(old(self)@),
        ensures
            final(self)@ == spec_ball_frame(old(self)@),
            game_wf(final(self)@),
    {
        let mut step: i32 = 0;
        while step < BALL_SPEED
            invariant
                0 <= step <= BALL_SPEED,
                self@ == spec_sub_steps(old(self)@, step as nat),
                game_wf(self@),
            decreases BALL_SPEED - step,
        {
            if !self.dead && !self.won {
                self.ball_axis_step(0);
            }
            if !self.dead && !self.won {
                self.ball_axis_step(1);
            }
            step = step + 1;
        }
    }

    /// The paddle's frame: facing from the input per the held/edge rule,
    /// movement at [`PLAYER_SPEED`], then the clamp back onto the screen.
    pub fn paddle_update(&mut self, key: u16, edge: u16)
        requires
            game_wf(old(self)@),
        ensures
            final(self)@ == (GameModel {
                paddle: spec_paddle_step(old(self)@.paddle, old(self)@.screen, key, edge),
                ..old(self)@
            }),
            game_wf(final(self)@),
    {
        let facing: i32 = if key & (DPAD_LEFT | DPAD_RIGHT) == (DPAD_LEFT | DPAD_RIGHT) {
            if edge & DPAD_LEFT != 0 {
                -1
            } else if edge & DPAD_RIGHT != 0 {
                1
            } else {
                self.paddle.facing
            }
        } else {
            if key & DPAD_LEFT != 0 {
                -1
            } else if key & DPAD_RIGHT != 0 {
                1
            } else {
                0
            }
        };
        self.paddle.facing = facing;
        let moved = self.paddle.rect.offset(Vec2i { x: facing * PLAYER_SPEED, y: 0 });
        self.paddle.rect = moved.clamp_x_into(self.screen);
    }

    /// The last surviving brick's frame: pick a direction toward the screen
    /// centre the first time, then drift one pixel, bouncing off the screen
    /// edges. Does nothing while more than one brick survives.
    pub fn bricks_update(&mut self)
        requires
            game_wf(old(self)@),
        ensures
            final(self)@ == spec_bricks_step(old(self)@),
            game_wf(final(self)@),
    {
        if self.bricks.len() == 1 {
            let brick = self.bricks[0];
            proof {
                assert(brick_wf(self@.screen, self@.bricks[0]));
            }
            if self.last_brick_facing == 0 {
                let brick_center = brick.rect.center();
                let screen_center = self.screen.center();
                self.last_brick_facing = if brick_center.x > screen_center.x {
                    -1
                } else {
                    1
                };
            }
            let moved = brick.rect.offset(Vec2i { x: self.last_brick_facing, y: 0 });
            if self.screen.encloses(moved) {
                self.bricks = vec![Brick { rect: moved }];
            } else {
                let back = brick.rect.offset(
                    Vec2i { x: -self.last_brick_facing, y: 0 },
                );
                self.bricks = vec![Brick { rect: back }];
                self.last_brick_facing = -self.last_brick_facing;
            }
            proof {
                assert(self@.bricks =~= spec_bricks_step(old(self)@).bricks);
            }
        }
    }

    /// The state part of one frame: edge detection, the pause toggle, and —
    /// only in the running phase — the mechanics in their fixed order.
    pub fn frame_mechanics(&mut self, input: u16)
        requires
            game_wf(old(self)@),
        ensures
            final(self)@ == spec_frame_mechanics(old(self)@, input),
            game_wf(final(self)@),
    {
        let edge = edge_bits(self.prev_input, input);
        if !self.dead && edge & FACE_SELECT != 0 {
            self.paused = !self.paused;
        }
        self.prev_input = input;
        proof {
            assert forall|i: int| 0 <= i < self@.bricks.len() implies brick_wf(
                self@.screen,
                #[trigger] self@.bricks[i],
            ) by {
                assert(self@.bricks[i] == old(self)@.bricks[i]);
            }
        }
        if !self.paused && !self.dead && !self.won {
            self.bricks_update();
            self.paddle_update(input, edge);
            self.ball_frame();
        }
    }

    /// Tops the audio buffer up to its target: generates one sample per
    /// missing slot and hands them back for the driver to push to the FIFO.
    /// The game-over tone pausing itself lands in `paused` here.
    pub fn synthesize(&mut self, fill: u32) -> (samples: Vec<u32>)
        requires
            synth_wf(old(self)@.audio),
        ensures
            ({
                let (audio, paused, emitted) = spec_run(
                    old(self)@.audio,
                    old(self)@.paused,
                    old(self)@.won,
                    spec_samples_needed(fill) as nat,
                );
                final(self)@ == (GameModel { audio, paused, ..old(self)@ }) && samples@
                    == emitted
            }),
            samples@.len() == spec_samples_needed(fill),
            synth_wf(final(self)@.audio),
    {
        let needed = samples_needed(fill);
        let mut samples: Vec<u32> = Vec::new();
        let mut i: u32 = 0;
        while i < needed
            invariant
                i <= needed,
                needed == spec_samples_needed(fill),
                synth_wf(self@.audio),
                ({
                    let (audio, paused, emitted) = spec_run(
                        old(self)@.audio,
                        old(self)@.paused,
                        old(self)@.won,
                        i as nat,
                    );
                    self@ == (GameModel { audio, paused, ..old(self)@ }) && samples@
                        == emitted
                }),
            decreases needed - i,
        {
            let (value, now_paused) = self.audio.next_sample(self.paused, self.won);
            self.paused = now_paused;
            samples.push(value);
            i = i + 1;
        }
        proof {
            crate::audio::lemma_run_len(
                old(self)@.audio,
                old(self)@.paused,
                old(self)@.won,
                spec_samples_needed(fill) as nat,
            );
        }
        samples
    }

    /// One whole frame, as the driver calls it right after the vertical
    /// blank: mechanics under this frame's input word, then the audio
    /// top-up for the current buffer fill. Returns the samples to push and
    /// whether a fresh press of start asks for a system reset.
    pub fn frame_update(&mut self, input: u16, fill: u32) -> (r: (Vec<u32>, bool))
        requires
            game_wf(old(self)@),
        ensures
            final(self)@ == spec_frame(old(self)@, input, fill).0,
            r.0@ == spec_frame(old(self)@, input, fill).1,
            r.0@.len() == spec_samples_needed(fill),
            r.1 == spec_wants_reset(old(self)@, input),
            game_wf(final(self)@),
    {
        let reset = edge_bits(self.prev_input, input) & FACE_START != 0;
        self.frame_mechanics(input);
        let samples = self.synthesize(fill);
        (samples, reset)
    }
}

/// Loss freezes the world: once `dead` is set, a frame's mechanics change
/// nothing but the stored input word — no entity moves and the pause toggle
/// is locked out — until the platform resets the whole system.
pub proof fn lemma_dead_frame_frozen(g: GameModel, input: u16)
    requires
        g.dead,
    ensures
        spec_frame_mechanics(g, input) == (GameModel { prev_input: input, ..g }),
{
}

/// The transition that ends the game — either way — schedules the full
/// game-over tone: the bloop counter is loaded with [`AUDIO_DEATH_BLOOP`],
/// and nothing else loads it.
pub proof fn lemma_game_over_schedules_bloop(g: GameModel, axis: int)
    requires
        !g.dead,
        !g.won,
    ensures
        spec_axis_step(g, axis).dead || spec_axis_step(g, axis).won
            ==> spec_axis_step(g, axis).audio.blooping == AUDIO_DEATH_BLOOP,
        g.audio.blooping == 0 && !spec_axis_step(g, axis).dead && !spec_axis_step(g, axis).won
            ==> spec_axis_step(g, axis).audio.blooping == 0,
{
}

/// A game-ending transition plays the tone out in full: from the state it
/// leaves behind, a run of the synthesizer emits one word per sample and
/// playback is paused exactly from the sample that exhausts the scheduled
/// [`AUDIO_DEATH_BLOOP`] — never earlier, and for good after it.
pub proof fn lemma_game_over_tone_then_pause(g: GameModel, axis: int, k: nat)
    requires
        !g.dead,
        !g.won,
        !g.paused,
        spec_axis_step(g, axis).dead || spec_axis_step(g, axis).won,
    ensures
        ({
            let after = spec_axis_step(g, axis);
            let (audio, paused, emitted) = spec_run(after.audio, after.paused, after.won, k);
            emitted.len() == k && paused == (k >= AUDIO_DEATH_BLOOP)
        }),
{
    let after = spec_axis_step(g, axis);
    lemma_game_over_schedules_bloop(g, axis);
    crate::audio::lemma_bloop_pauses(after.audio, after.won, k);
    crate::audio::lemma_run_len(after.audio, after.paused, after.won, k);
}

/// The game is lost on exactly one condition: the ball's candidate
/// rectangle leaves the screen while the ball moves downward, with
/// immortality off. Nothing else sets `dead`.
pub proof fn lemma_death_iff_bottom_exit(g: GameModel, axis: int)
    requires
        !g.dead,
        !g.won,
        !g.immortal,
    ensures
        spec_axis_step(g, axis).dead <==> !spec_encloses(
            g.screen,
            spec_offset(g.ball.rect, spec_axis_vel(g.ball.facing, axis)),
        ) && spec_axis_vel(g.ball.facing, axis).y > 0,
{
}

/// The game is won on exactly one condition: a single brick survives and
/// the ball's candidate rectangle — on screen and clear of the paddle —
/// overlaps it. The brick collection is empty afterwards.
pub proof fn lemma_win_iff_last_brick(g: GameModel, axis: int)
    requires
        !g.dead,
        !g.won,
    ensures
        ({
            let cand = spec_offset(g.ball.rect, spec_axis_vel(g.ball.facing, axis));
            &&& spec_axis_step(g, axis).won <==> spec_encloses(g.screen, cand)
                && !spec_intersects(g.paddle.rect, cand) && g.bricks.len() == 1
                && spec_intersects(g.bricks[0].rect, cand)
            &&& spec_axis_step(g, axis).won ==> spec_axis_step(g, axis).bricks.len() == 0
        }),
{
    let cand = spec_offset(g.ball.rect, spec_axis_vel(g.ball.facing, axis));
    lemma_first_hit_is_first(g.bricks, cand);
}

} // verus!
