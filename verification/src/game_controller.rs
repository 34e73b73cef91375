//! The game core: ball physics, paddle control and round/score management.
//!
//! The controller owns the ball, the two paddles and the score. Each tick the
//! host supplies the primary paddle's target ordinate; the controller moves
//! both paddles, advances the ball (consulting the swept collision detector
//! against the walls and both paddles), resolves a scoring event if the ball
//! crossed a goal line, and returns the ordered list of draw and audio
//! intents for the host to perform.
//!
//! The ball's travel direction is kept as the integer displacement per tick
//! `(ball_vx, ball_vy)`. A wall bounce reflects the vertical component and a
//! paddle bounce reflects the horizontal component, so both components always
//! equal the launch components up to sign, and the speed never changes.

use vstd::prelude::*;

use crate::geometry::Rect;
use crate::geometry::Vec2;
use crate::sweep::CollisionResult;
use crate::sweep::collides;
use crate::sweep::hit_den;
use crate::sweep::hit_normal_x;
use crate::sweep::hit_num;
use crate::sweep::scale_trunc;
use crate::sweep::scale_trunc_spec;
use crate::sweep::sweep;

verus! {

/// Largest arena dimension, paddle size, wall padding or launch-velocity
/// magnitude a configuration accepts. Keeps every coordinate the game can
/// produce well inside the range the collision detector accepts.
pub const DIM_LIMIT: i64 = 1_000_000;

/// Construction-time configuration, fixed for the session: arena and paddle
/// geometry, ball size, and the per-tick displacement of a freshly launched
/// ball (the fixed speed and launch angle, as integer pixel components).
#[derive(Clone, Copy, PartialEq, Eq, Structural, Debug)]
pub struct GameConfig {
    pub window_width: i64,
    pub window_height: i64,
    pub paddle_width: i64,
    pub paddle_height: i64,
    pub paddle_wall_padding: i64,
    pub ball_breadth: i64,
    pub launch_vx: i64,
    pub launch_vy: i64,
}

impl GameConfig {
    /// Valid geometry: positive arena and sizes within bounds, the ball fits
    /// the arena, both paddles fit side by side inside the arena, and the
    /// launch displacement is small enough that a wall bounce never carries
    /// straight into another wall bounce.
    pub open spec fn wf(self) -> bool {
        &&& 0 < self.window_width <= DIM_LIMIT
        &&& 0 < self.window_height <= DIM_LIMIT
        &&& 0 < self.ball_breadth <= self.window_width
        &&& self.ball_breadth <= self.window_height
        &&& 0 < self.paddle_width <= self.window_width
        &&& 0 < self.paddle_height <= self.window_height
        &&& 0 <= self.paddle_wall_padding <= self.window_width
        &&& 2 * (self.paddle_wall_padding + self.paddle_width) <= self.window_width
        &&& -DIM_LIMIT <= self.launch_vx <= DIM_LIMIT
        &&& -(self.window_height - self.ball_breadth) <= self.launch_vy
            <= self.window_height - self.ball_breadth
    }

    /// Runtime validity check, for hosts that receive their configuration
    /// from outside: construction demands a valid configuration and fails
    /// fast on anything else.
    pub fn valid(&self) -> (r: bool)
        ensures
            r == self.wf(),
    {
        0 < self.window_width && self.window_width <= DIM_LIMIT && 0 < self.window_height
            && self.window_height <= DIM_LIMIT && 0 < self.ball_breadth && self.ball_breadth
            <= self.window_width && self.ball_breadth <= self.window_height && 0
            < self.paddle_width && self.paddle_width <= self.window_width && 0
            < self.paddle_height && self.paddle_height <= self.window_height && 0
            <= self.paddle_wall_padding && self.paddle_wall_padding <= self.window_width && 2
            * (self.paddle_wall_padding + self.paddle_width) <= self.window_width
            && -DIM_LIMIT <= self.launch_vx && self.launch_vx <= DIM_LIMIT
            && -(self.window_height - self.ball_breadth) <= self.launch_vy && self.launch_vy
            <= self.window_height - self.ball_breadth
    }
}

/// Audio cue intents for the host's sound mixer.
#[derive(Clone, Copy, PartialEq, Eq, Structural, Debug)]
pub enum SoundCue {
    WallBounce,
    PaddleHit,
    PointLost,
}

/// Color tag of a filled-rectangle draw intent; the host maps tags to actual
/// colors.
#[derive(Clone, Copy, PartialEq, Eq, Structural, Debug)]
pub enum ColorTag {
    Paddle,
    Ball,
}

/// One intent handed back to the host, in the order they are to be
/// performed: an audio cue, a score glyph (value and the x position its
/// rendered text is centered on), or a filled rectangle.
#[derive(Clone, Copy, PartialEq, Eq, Structural, Debug)]
pub enum Intent {
    Sound { cue: SoundCue },
    ScoreGlyph { value: u64, anchor_x: i64 },
    FillRect { x: i64, y: i64, w: i64, h: i64, color: ColorTag },
}

/// Clamp `v` into `[lo, hi]` (callers establish `lo <= hi`).
pub open spec fn clamp_spec(v: int, lo: int, hi: int) -> int {
    if v < lo {
        lo
    } else if v > hi {
        hi
    } else {
        v
    }
}

/// The frame's vertical displacement carries the ball outside
/// `[0, height - breadth]`, so this tick is a wall bounce.
pub open spec fn wall_bounce_spec(y: int, vy: int, height: int, breadth: int) -> bool {
    y + vy > height - breadth || y + vy < 0
}

/// Vertical position after the wall phase: the full displacement, clamped to
/// the boundary it violated.
pub open spec fn wall_clamp_spec(y: int, vy: int, height: int, breadth: int) -> int {
    clamp_spec(y + vy, 0, height - breadth)
}

/// Wall phase of one tick, on its own: if the vertical displacement `vy`
/// would carry a ball of the given breadth outside `[0, height - breadth]`,
/// return the clamped vertical position and the reflected vertical velocity.
/// The clamp holds for any starting position, in range or not.
pub fn wall_step(y: i64, vy: i64, height: i64, breadth: i64) -> (r: Option<(i64, i64)>)
    requires
        0 < breadth <= height <= DIM_LIMIT,
        -4 * DIM_LIMIT <= y <= 4 * DIM_LIMIT,
        -4 * DIM_LIMIT <= vy <= 4 * DIM_LIMIT,
    ensures
        (r is Some) == wall_bounce_spec(y as int, vy as int, height as int, breadth as int),
        r matches Some((ny, nvy)) ==> {
            &&& ny == wall_clamp_spec(y as int, vy as int, height as int, breadth as int)
            &&& nvy == -vy
            &&& 0 <= ny <= height - breadth
        },
{
    let upper = height - breadth;
    let moved = y + vy;
    if moved > upper {
        Some((upper, -vy))
    } else if moved < 0 {
        Some((0, -vy))
    } else {
        None
    }
}

/// For `0 < b <= h`, the centered position `h / 2 - b / 2` lies within
/// `[0, h - b]`.
proof fn lemma_center_in_range(b: int, h: int)
    requires
        0 < b <= h,
    ensures
        0 <= h / 2 - b / 2 <= h - b,
{
    vstd::arithmetic::div_mod::lemma_div_is_ordered(b, h, 2);
    vstd::arithmetic::div_mod::lemma_fundamental_div_mod(h, 2);
    vstd::arithmetic::div_mod::lemma_fundamental_div_mod(b, 2);
    vstd::arithmetic::div_mod::lemma_mod_division_less_than_divisor(h, 2);
    vstd::arithmetic::div_mod::lemma_mod_division_less_than_divisor(b, 2);
    vstd::arithmetic::div_mod::lemma_div_pos_is_pos(b, 2);
}

/// Values equal up to sign have equal squares: a reflection changes only the
/// direction of a velocity component, never the magnitude.
proof fn lemma_square_sign_invariant(a: int, b: int)
    by (nonlinear_arith)
    requires
        a == b || a == -b,
    ensures
        a * a == b * b,
{
}

/// For `0 <= x`, the half `x / 2` lies within `[0, x]`.
proof fn lemma_half_in_range(x: int)
    requires
        0 <= x,
    ensures
        0 <= x / 2 <= x,
{
    vstd::arithmetic::div_mod::lemma_fundamental_div_mod(x, 2);
    vstd::arithmetic::div_mod::lemma_mod_division_less_than_divisor(x, 2);
    vstd::arithmetic::div_mod::lemma_div_pos_is_pos(x, 2);
}

/// The per-frame physics and collision core of the two-paddle ball game.
#[derive(Clone, Copy, PartialEq, Eq, Structural, Debug)]
pub struct GameController {
    pub config: GameConfig,
    /// Top-left corner of the ball's square.
    pub ball_x: i64,
    pub ball_y: i64,
    /// Per-tick displacement of the ball; always the launch components up to
    /// sign.
    pub ball_vx: i64,
    pub ball_vy: i64,
    /// Top ordinate of the primary (left) paddle.
    pub player_paddle_y: i64,
    /// Top ordinate of the secondary (right) paddle.
    pub opponent_paddle_y: i64,
    pub player_score: u64,
    pub opponent_score: u64,
}

impl GameController {
    /// Largest vertical position the ball's top edge may take.
    pub open spec fn upper_y(self) -> int {
        self.config.window_height - self.config.ball_breadth
    }

    /// Fixed horizontal position of the primary paddle, just inside the left
    /// wall.
    pub open spec fn player_paddle_x(self) -> int {
        self.config.paddle_wall_padding as int
    }

    /// Fixed horizontal position of the secondary paddle, just inside the
    /// right wall.
    pub open spec fn opponent_paddle_x(self) -> int {
        self.config.window_width - self.config.paddle_width - self.config.paddle_wall_padding
    }

    /// The ball's square.
    pub open spec fn ball_rect(self) -> Rect {
        Rect {
            x: self.ball_x,
            y: self.ball_y,
            w: self.config.ball_breadth,
            h: self.config.ball_breadth,
        }
    }

    /// The ball's per-tick displacement.
    pub open spec fn displacement(self) -> Vec2 {
        Vec2 { x: self.ball_vx, y: self.ball_vy }
    }

    /// The primary paddle's rectangle.
    pub open spec fn player_rect(self) -> Rect {
        Rect {
            x: self.config.paddle_wall_padding,
            y: self.player_paddle_y,
            w: self.config.paddle_width,
            h: self.config.paddle_height,
        }
    }

    /// The secondary paddle's rectangle.
    pub open spec fn opponent_rect(self) -> Rect {
        Rect {
            x: self.opponent_paddle_x() as i64,
            y: self.opponent_paddle_y,
            w: self.config.paddle_width,
            h: self.config.paddle_height,
        }
    }

    /// Squared magnitude of the ball's velocity. Reflections only flip
    /// component signs, so this never changes after construction.
    pub open spec fn speed_sq(self) -> int {
        self.ball_vx * self.ball_vx + self.ball_vy * self.ball_vy
    }

    /// Well-formed state: a valid configuration; the velocity components
    /// equal the launch components up to sign; the ball within the vertical
    /// play range; the ball's horizontal position bounded, and inside the
    /// arena unless the tick that just ended was a wall bounce (in which case
    /// the next tick cannot be one); the primary paddle clamped to the arena
    /// and the secondary paddle within one arena height of it.
    pub open spec fn wf(self) -> bool {
        &&& self.config.wf()
        &&& (self.ball_vx == self.config.launch_vx || self.ball_vx == -self.config.launch_vx)
        &&& (self.ball_vy == self.config.launch_vy || self.ball_vy == -self.config.launch_vy)
        &&& 0 <= self.ball_y <= self.upper_y()
        &&& -DIM_LIMIT <= self.ball_x <= self.config.window_width + DIM_LIMIT
        &&& (0 <= self.ball_x <= self.config.window_width || 0 <= self.ball_y + self.ball_vy
            <= self.upper_y())
        &&& 0 <= self.player_paddle_y <= self.config.window_height - self.config.paddle_height
        &&& -self.config.window_height <= self.opponent_paddle_y <= self.config.window_height
    }

    /// A fresh controller: zero scores, both paddles at the top, the ball at
    /// the origin carrying the launch displacement. Hosts normally call
    /// `restart_game` once before the first tick to launch from the center.
    pub fn new(config: GameConfig) -> (r: GameController)
        requires
            config.wf(),
        ensures
            r.wf(),
            r.config == config,
            r.ball_x == 0 && r.ball_y == 0,
            r.ball_vx == config.launch_vx && r.ball_vy == config.launch_vy,
            r.player_paddle_y == 0 && r.opponent_paddle_y == 0,
            r.player_score == 0 && r.opponent_score == 0,
    {
        GameController {
            config,
            ball_x: 0,
            ball_y: 0,
            ball_vx: config.launch_vx,
            ball_vy: config.launch_vy,
            player_paddle_y: 0,
            opponent_paddle_y: 0,
            player_score: 0,
            opponent_score: 0,
        }
    }

    /// The ball state at round start: centered in the arena, carrying the
    /// launch displacement. Everything else unchanged.
    pub open spec fn reset_ball(self) -> GameController {
        GameController {
            ball_x: (self.config.window_width / 2 - self.config.ball_breadth / 2) as i64,
            ball_y: (self.config.window_height / 2 - self.config.ball_breadth / 2) as i64,
            ball_vx: self.config.launch_vx,
            ball_vy: self.config.launch_vy,
            ..self
        }
    }

    /// Place the ball at the arena center and relaunch it: the round-start
    /// state. Scores and paddles are untouched.
    pub fn restart_game(&mut self)
        requires
            old(self).wf(),
        ensures
            *final(self) == old(self).reset_ball(),
            final(self).wf(),
    {
        proof {
            lemma_center_in_range(
                self.config.ball_breadth as int,
                self.config.window_width as int,
            );
            lemma_center_in_range(
                self.config.ball_breadth as int,
                self.config.window_height as int,
            );
        }
        self.ball_x = self.config.window_width / 2 - self.config.ball_breadth / 2;
        self.ball_y = self.config.window_height / 2 - self.config.ball_breadth / 2;
        self.ball_vx = self.config.launch_vx;
        self.ball_vy = self.config.launch_vy;
    }

    /// Clamp the primary paddle to the externally supplied target ordinate
    /// within the arena: direct positional follow, no smoothing.
    pub fn move_player_paddle(&mut self, target_y: i64)
        requires
            old(self).wf(),
        ensures
            *final(self) == (GameController {
                player_paddle_y: clamp_spec(
                    target_y as int,
                    0,
                    old(self).config.window_height - old(self).config.paddle_height,
                ) as i64,
                ..*old(self)
            }),
            final(self).wf(),
    {
        let max_y = self.config.window_height - self.config.paddle_height;
        let y = if target_y < 0 {
            0
        } else if target_y > max_y {
            max_y
        } else {
            target_y
        };
        self.player_paddle_y = y;
    }

    /// Drive the secondary paddle by the fixed tracking policy: center it on
    /// the ball's vertical position, with no clamp and no inertia.
    pub fn move_opponent_paddle(&mut self)
        requires
            old(self).wf(),
        ensures
            *final(self) == (GameController {
                opponent_paddle_y: (old(self).ball_y - old(self).config.paddle_height / 2) as i64,
                ..*old(self)
            }),
            final(self).wf(),
    {
        proof {
            lemma_half_in_range(self.config.paddle_height as int);
        }
        self.opponent_paddle_y = self.ball_y - self.config.paddle_height / 2;
    }

    /// The wall phase fires this tick: the full vertical displacement would
    /// carry the ball outside the vertical play range.
    pub open spec fn wall_phase(self) -> bool {
        wall_bounce_spec(
            self.ball_y as int,
            self.ball_vy as int,
            self.config.window_height as int,
            self.config.ball_breadth as int,
        )
    }

    /// State after a wall bounce: full horizontal advance, vertical position
    /// clamped to the boundary it violated, vertical velocity reflected.
    /// No paddle check and no scoring check happen on such a tick.
    pub open spec fn after_wall(self) -> GameController {
        GameController {
            ball_x: (self.ball_x + self.ball_vx) as i64,
            ball_y: wall_clamp_spec(
                self.ball_y as int,
                self.ball_vy as int,
                self.config.window_height as int,
                self.config.ball_breadth as int,
            ) as i64,
            ball_vy: (-self.ball_vy) as i64,
            ..self
        }
    }

    /// The swept detector reports an impact against the primary paddle this
    /// tick.
    pub open spec fn player_hit(self) -> bool {
        collides(self.ball_rect(), self.displacement(), self.player_rect())
    }

    /// The swept detector reports an impact against the secondary paddle.
    pub open spec fn opponent_hit(self) -> bool {
        collides(self.ball_rect(), self.displacement(), self.opponent_rect())
    }

    /// Some paddle is struck this tick.
    pub open spec fn paddle_hit(self) -> bool {
        self.player_hit() || self.opponent_hit()
    }

    /// The primary paddle's impact is the one resolved: it is the only hit,
    /// or the earlier of the two. Ties go to the primary paddle.
    pub open spec fn player_hit_wins(self) -> bool {
        &&& self.player_hit()
        &&& (!self.opponent_hit() || hit_num(
            self.ball_rect(),
            self.displacement(),
            self.player_rect(),
        ) * hit_den(self.ball_rect(), self.displacement(), self.opponent_rect()) <= hit_num(
            self.ball_rect(),
            self.displacement(),
            self.opponent_rect(),
        ) * hit_den(self.ball_rect(), self.displacement(), self.player_rect()))
    }

    /// The paddle rectangle of the winning impact.
    pub open spec fn winner_rect(self) -> Rect {
        if self.player_hit_wins() {
            self.player_rect()
        } else {
            self.opponent_rect()
        }
    }

    /// Horizontal normal component of the winning impact.
    pub open spec fn winner_normal_x(self) -> int {
        hit_normal_x(self.ball_rect(), self.displacement(), self.winner_rect())
    }

    /// Numerator of the winning impact's time.
    pub open spec fn winner_num(self) -> int {
        hit_num(self.ball_rect(), self.displacement(), self.winner_rect())
    }

    /// Denominator of the winning impact's time.
    pub open spec fn winner_den(self) -> int {
        hit_den(self.ball_rect(), self.displacement(), self.winner_rect())
    }

    /// The winning impact strikes a vertical paddle face: the ball advances
    /// only to the impact point and its horizontal component reflects. A
    /// winning impact on a horizontal face (a graze from above or below) is
    /// not a bounce: the ball advances the full displacement unreflected.
    pub open spec fn horizontal_bounce(self) -> bool {
        self.paddle_hit() && self.winner_normal_x() != 0
    }

    /// Horizontal position after the paddle phase.
    pub open spec fn moved_x(self) -> int {
        if self.horizontal_bounce() {
            self.ball_x + scale_trunc_spec(self.ball_vx as int, self.winner_num(), self.winner_den())
        } else {
            self.ball_x + self.ball_vx
        }
    }

    /// Vertical position after the paddle phase.
    pub open spec fn moved_y(self) -> int {
        if self.horizontal_bounce() {
            self.ball_y + scale_trunc_spec(self.ball_vy as int, self.winner_num(), self.winner_den())
        } else {
            self.ball_y + self.ball_vy
        }
    }

    /// This tick ends the round: the wall phase did not fire and the ball's
    /// horizontal position after movement lies beyond a goal line.
    pub open spec fn scoring_event(self) -> bool {
        !self.wall_phase() && (self.moved_x() < 0 || self.moved_x() > self.config.window_width)
    }

    /// The full ball transition of one tick: wall phase, else paddle phase,
    /// then the scoring check. On a scoring event the moved position is not
    /// committed; the score of the side opposite the breached goal rises by
    /// one and the ball returns to the round-start state.
    pub open spec fn ball_step(self) -> GameController {
        if self.wall_phase() {
            self.after_wall()
        } else {
            let mid = GameController {
                ball_vx: if self.horizontal_bounce() {
                    (-self.ball_vx) as i64
                } else {
                    self.ball_vx
                },
                ..self
            };
            if self.moved_x() < 0 || self.moved_x() > self.config.window_width {
                let scored = if self.moved_x() < self.player_paddle_x() {
                    GameController { opponent_score: (mid.opponent_score + 1) as u64, ..mid }
                } else if self.moved_x() > self.opponent_paddle_x() {
                    GameController { player_score: (mid.player_score + 1) as u64, ..mid }
                } else {
                    mid
                };
                scored.reset_ball()
            } else {
                GameController { ball_x: self.moved_x() as i64, ball_y: self.moved_y() as i64, ..mid }
            }
        }
    }

    /// The audio cues the ball phase emits, in order: a wall bounce cue, or a
    /// paddle bounce cue, then a point-lost cue on a scoring event.
    pub open spec fn ball_cues(self) -> Seq<SoundCue> {
        if self.wall_phase() {
            seq![SoundCue::WallBounce]
        } else {
            let base: Seq<SoundCue> = if self.horizontal_bounce() {
                seq![SoundCue::PaddleHit]
            } else {
                Seq::empty()
            };
            if self.scoring_event() {
                base.push(SoundCue::PointLost)
            } else {
                base
            }
        }
    }

    /// Advance the ball one tick: resolve a wall bounce, else the earliest
    /// paddle impact, else travel the full displacement; then detect a
    /// scoring event and reset the round if one happened. Returns the audio
    /// cues emitted, in order. The new state is exactly `ball_step` of the
    /// old; the vertical play-range invariant holds afterwards, and the
    /// velocity's squared magnitude never changes.
    pub fn move_ball(&mut self) -> (cues: Vec<SoundCue>)
        requires
            old(self).wf(),
            old(self).player_score < u64::MAX,
            old(self).opponent_score < u64::MAX,
        ensures
            final(self).wf(),
            *final(self) == old(self).ball_step(),
            cues@ == old(self).ball_cues(),
            0 <= final(self).ball_y <= final(self).upper_y(),
            final(self).speed_sq() == old(self).speed_sq(),
            final(self).config == old(self).config,
            final(self).player_paddle_y == old(self).player_paddle_y,
            final(self).opponent_paddle_y == old(self).opponent_paddle_y,
            old(self).scoring_event() && old(self).moved_x() < 0 ==> {
                &&& final(self).opponent_score == old(self).opponent_score + 1
                &&& final(self).player_score == old(self).player_score
            },
            old(self).scoring_event() && old(self).moved_x() > old(self).config.window_width ==> {
                &&& final(self).player_score == old(self).player_score + 1
                &&& final(self).opponent_score == old(self).opponent_score
            },
            old(self).scoring_event() ==> {
                &&& final(self).ball_x == old(self).config.window_width / 2 - old(
                    self,
                ).config.ball_breadth / 2
                &&& final(self).ball_y == old(self).config.window_height / 2 - old(
                    self,
                ).config.ball_breadth / 2
                &&& final(self).ball_vx == old(self).config.launch_vx
                &&& final(self).ball_vy == old(self).config.launch_vy
                &&& final(self).player_score + final(self).opponent_score == old(
                    self,
                ).player_score + old(self).opponent_score + 1
            },
            !old(self).scoring_event() ==> {
                &&& final(self).player_score == old(self).player_score
                &&& final(self).opponent_score == old(self).opponent_score
            },
    {
        let mut cues: Vec<SoundCue> = Vec::new();

        // Wall phase: a bounce consumes the tick; no paddle or scoring check.
        if let Some((ny, nvy)) = wall_step(
            self.ball_y,
            self.ball_vy,
            self.config.window_height,
            self.config.ball_breadth,
        ) {
            self.ball_x = self.ball_x + self.ball_vx;
            self.ball_y = ny;
            self.ball_vy = nvy;
            cues.push(SoundCue::WallBounce);
            proof {
                lemma_square_sign_invariant(self.ball_vx as int, old(self).ball_vx as int);
                lemma_square_sign_invariant(self.ball_vy as int, old(self).ball_vy as int);
            }
            assert(cues@ =~= old(self).ball_cues());
            return cues;
        }

        // Paddle phase: sweep the full-frame displacement against both
        // paddles; the earlier impact wins.
        let ball_rect = Rect {
            x: self.ball_x,
            y: self.ball_y,
            w: self.config.ball_breadth,
            h: self.config.ball_breadth,
        };
        let disp = Vec2 { x: self.ball_vx, y: self.ball_vy };
        let player_rect = Rect {
            x: self.config.paddle_wall_padding,
            y: self.player_paddle_y,
            w: self.config.paddle_width,
            h: self.config.paddle_height,
        };
        let opp_x = self.config.window_width - self.config.paddle_width
            - self.config.paddle_wall_padding;
        let opponent_rect = Rect {
            x: opp_x,
            y: self.opponent_paddle_y,
            w: self.config.paddle_width,
            h: self.config.paddle_height,
        };

        let p_res = sweep(ball_rect, disp, player_rect);
        let o_res = sweep(ball_rect, disp, opponent_rect);

        let winner: CollisionResult = match (p_res, o_res) {
            (
                CollisionResult::Hit { time: pt, .. },
                CollisionResult::Hit { time: ot, .. },
            ) => {
                proof {
                    crate::sweep::lemma_mul_bound(
                        pt.num as int,
                        ot.den as int,
                        crate::geometry::COORD_LIMIT as int,
                        crate::geometry::COORD_LIMIT as int,
                    );
                    crate::sweep::lemma_mul_bound(
                        ot.num as int,
                        pt.den as int,
                        crate::geometry::COORD_LIMIT as int,
                        crate::geometry::COORD_LIMIT as int,
                    );
                }
                if pt.num * ot.den <= ot.num * pt.den {
                    p_res
                } else {
                    o_res
                }
            },
            (_, CollisionResult::NoCollision) => p_res,
            (CollisionResult::NoCollision, _) => o_res,
        };

        let moved_to_x: i64;
        let moved_to_y: i64;
        let mut bounce = false;
        match winner {
            CollisionResult::Hit { normal_x, normal_y: _, time } => {
                if normal_x != 0 {
                    moved_to_x = self.ball_x + scale_trunc(self.ball_vx, time);
                    moved_to_y = self.ball_y + scale_trunc(self.ball_vy, time);
                    bounce = true;
                } else {
                    moved_to_x = self.ball_x + self.ball_vx;
                    moved_to_y = self.ball_y + self.ball_vy;
                }
            },
            CollisionResult::NoCollision => {
                moved_to_x = self.ball_x + self.ball_vx;
                moved_to_y = self.ball_y + self.ball_vy;
            },
        }

        if bounce {
            self.ball_vx = -self.ball_vx;
            cues.push(SoundCue::PaddleHit);
        }

        // Scoring check: a ball at or beyond a goal line is not committed;
        // the opposing side scores and the round restarts.
        if moved_to_x < 0 || moved_to_x > self.config.window_width {
            if moved_to_x < self.config.paddle_wall_padding {
                self.opponent_score = self.opponent_score + 1;
            } else if moved_to_x > opp_x {
                self.player_score = self.player_score + 1;
            }
            cues.push(SoundCue::PointLost);
            self.restart_game();
        } else {
            self.ball_x = moved_to_x;
            self.ball_y = moved_to_y;
        }
        proof {
            lemma_square_sign_invariant(self.ball_vx as int, old(self).ball_vx as int);
            lemma_square_sign_invariant(self.ball_vy as int, old(self).ball_vy as int);
        }
        assert(cues@ =~= old(self).ball_cues());
        cues
    }

    /// State after the paddle-controller phase of a tick: the primary paddle
    /// clamped to the host-supplied target ordinate, then the secondary
    /// paddle centered on the ball.
    pub open spec fn paddles_moved(self, target_y: i64) -> GameController {
        let s1 = GameController {
            player_paddle_y: clamp_spec(
                target_y as int,
                0,
                self.config.window_height - self.config.paddle_height,
            ) as i64,
            ..self
        };
        GameController { opponent_paddle_y: (s1.ball_y - s1.config.paddle_height / 2) as i64, ..s1 }
    }

    /// The full state transition of one tick: both paddles move, then the
    /// ball advances and the round outcome is resolved.
    pub open spec fn tick_state(self, target_y: i64) -> GameController {
        self.paddles_moved(target_y).ball_step()
    }

    /// The frame's draw intents, over the post-tick state: the two score
    /// glyphs anchored at thirds of the arena width, the two paddles, then
    /// the ball.
    pub open spec fn draw_intents(self) -> Seq<Intent> {
        seq![
            Intent::ScoreGlyph {
                value: self.opponent_score,
                anchor_x: (self.config.window_width as int / 3) as i64,
            },
            Intent::ScoreGlyph {
                value: self.player_score,
                anchor_x: ((self.config.window_width as int / 3) * 2) as i64,
            },
            Intent::FillRect {
                x: self.config.paddle_wall_padding,
                y: self.player_paddle_y,
                w: self.config.paddle_width,
                h: self.config.paddle_height,
                color: ColorTag::Paddle,
            },
            Intent::FillRect {
                x: self.opponent_paddle_x() as i64,
                y: self.opponent_paddle_y,
                w: self.config.paddle_width,
                h: self.config.paddle_height,
                color: ColorTag::Paddle,
            },
            Intent::FillRect {
                x: self.ball_x,
                y: self.ball_y,
                w: self.config.ball_breadth,
                h: self.config.ball_breadth,
                color: ColorTag::Ball,
            },
        ]
    }

    /// The ordered intent list of one tick: the audio cues the ball phase
    /// emitted, then the frame's draw intents over the new state.
    pub open spec fn tick_intents(self, target_y: i64) -> Seq<Intent> {
        self.paddles_moved(target_y).ball_cues().map_values(
            |c: SoundCue| Intent::Sound { cue: c },
        ) + self.tick_state(target_y).draw_intents()
    }

    /// One frame of the game, driven by the host: move the primary paddle
    /// toward `target_y` (clamped), track the ball with the secondary paddle,
    /// advance the ball with collision resolution and the scoring check, and
    /// return the ordered draw and audio intents of the frame.
    ///
    /// After any tick the ball's vertical position satisfies
    /// `0 <= ball_y <= window_height - ball_breadth`, and the velocity's
    /// squared magnitude is unchanged: reflections only flip component signs.
    pub fn tick(&mut self, target_y: i64) -> (intents: Vec<Intent>)
        requires
            old(self).wf(),
            old(self).player_score < u64::MAX,
            old(self).opponent_score < u64::MAX,
        ensures
            final(self).wf(),
            *final(self) == old(self).tick_state(target_y),
            intents@ == old(self).tick_intents(target_y),
            0 <= final(self).ball_y <= final(self).upper_y(),
            final(self).speed_sq() == old(self).speed_sq(),
            final(self).config == old(self).config,
            old(self).paddles_moved(target_y).scoring_event() ==> {
                final(self).player_score + final(self).opponent_score == old(self).player_score
                    + old(self).opponent_score + 1
            },
            !old(self).paddles_moved(target_y).scoring_event() ==> {
                &&& final(self).player_score == old(self).player_score
                &&& final(self).opponent_score == old(self).opponent_score
            },
    {
        self.move_player_paddle(target_y);
        self.move_opponent_paddle();
        let cues = self.move_ball();

        let mut intents: Vec<Intent> = Vec::new();
        let mut i: usize = 0;
        while i < cues.len()
            invariant
                i <= cues.len(),
                intents@.len() == i as int,
                forall|j: int| 0 <= j < i ==> intents@[j] == (Intent::Sound { cue: cues@[j] }),
            decreases cues.len() - i,
        {
            let c = cues[i];
            intents.push(Intent::Sound { cue: c });
            i = i + 1;
        }

        let third = self.config.window_width / 3;
        intents.push(Intent::ScoreGlyph { value: self.opponent_score, anchor_x: third });
        intents.push(Intent::ScoreGlyph { value: self.player_score, anchor_x: third * 2 });
        intents.push(
            Intent::FillRect {
                x: self.config.paddle_wall_padding,
                y: self.player_paddle_y,
                w: self.config.paddle_width,
                h: self.config.paddle_height,
                color: ColorTag::Paddle,
            },
        );
        let opp_x = self.config.window_width - self.config.paddle_width
            - self.config.paddle_wall_padding;
        intents.push(
            Intent::FillRect {
                x: opp_x,
                y: self.opponent_paddle_y,
                w: self.config.paddle_width,
                h: self.config.paddle_height,
                color: ColorTag::Paddle,
            },
        );
        intents.push(
            Intent::FillRect {
                x: self.ball_x,
                y: self.ball_y,
                w: self.config.ball_breadth,
                h: self.config.ball_breadth,
                color: ColorTag::Ball,
            },
        );
        assert(intents@ =~= old(self).tick_intents(target_y));
        intents
    }
}

} // verus!
