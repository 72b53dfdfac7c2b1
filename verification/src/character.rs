//! The playable character: a typestate machine over a shared context.
//!
//! Six states (`Idle`, `Running`, `Sliding`, `Jumping`, `Falling`,
//! `KnockOut`) each own the same `RedHatBoyContext`; transitions consume the
//! old state and build the next one, and every (state, event) pair that the
//! transition table does not name is an identity transition.  The per-tick
//! physics step increments the animation frame with wrap-around, applies
//! gravity up to a terminal velocity, integrates the vertical position and
//! clamps it to the floor.
//!
//! Well-formedness of the machine carries a descent budget: a state's
//! vertical position is bounded below by a base plus the triangular number
//! of the gravity steps its current upward velocity can still produce, so
//! the `i16` physics provably never overflows.

use vstd::prelude::*;

use crate::engine::{Audio, DrawCommand, ImageHandle, Renderer, Sound, HEIGHT};
use crate::geometry::{Point, Rect};
use crate::sheet::{Cell, FrameLabel, Sheet, SpriteKey};

verus! {

/// Vertical coordinate of the ground the character stands on.
pub const FLOOR: i16 = 479;

/// Nominal height of the character's box; a `Land(y)` event puts the
/// character's feet at `y`, so its position becomes `y - PLAYER_HEIGHT`.
pub const PLAYER_HEIGHT: i16 = HEIGHT - FLOOR;

/// The character's fixed horizontal position.
pub const STARTING_POINT: i16 = -20;

/// Animation frame limits per state (a displayed frame lasts three ticks).
pub const IDLE_FRAMES: u8 = 29;

pub const RUNNING_FRAMES: u8 = 23;

pub const SLIDING_FRAMES: u8 = 14;

pub const JUMPING_FRAMES: u8 = 12;

pub const FALLING_FRAMES: u8 = 29;

/// Horizontal impulse the `Run` event adds.
pub const RUNNING_SPEED: i16 = 3;

/// Vertical velocity a fresh jump starts with.
pub const JUMP_SPEED: i16 = -25;

/// Gravity stops raising the vertical velocity at this cap.
pub const TERMINAL_VELOCITY: i16 = 20;

/// Velocity added by gravity each tick.
pub const GRAVITY: i16 = 1;

/// How far a character can still descend after a fresh jump impulse:
/// the triangular number of `-JUMP_SPEED - 1` gravity steps.
pub const MAX_DESCENT: i16 = 300;

/// Lowest position a `Land` event can set (landing on `y == 0`).
pub const LAND_MIN_Y: i16 = -PLAYER_HEIGHT;

/// Lower position bound for the grounded states (Idle, Running, Sliding).
pub const GROUND_MIN_Y: i16 = LAND_MIN_Y - MAX_DESCENT;

/// Lower position bound for the airborne and fallen states.
pub const AIR_MIN_Y: i16 = GROUND_MIN_Y - MAX_DESCENT;

/// The triangular number `n + (n-1) + ... + 1`, and `0` for `n <= 0`.
pub open spec fn spec_tri(n: int) -> int
    decreases n,
{
    if n <= 0 {
        0
    } else {
        n + spec_tri(n - 1)
    }
}

/// How much further a character with vertical velocity `vy` can still
/// descend before gravity turns its motion around.
pub open spec fn spec_pending_descent(vy: int) -> int {
    spec_tri(-vy - 1)
}

pub proof fn lemma_tri_nonneg(n: int)
    ensures
        spec_tri(n) >= 0,
    decreases n,
{
    if n > 0 {
        lemma_tri_nonneg(n - 1);
    }
}

pub proof fn lemma_tri_mono(a: int, b: int)
    requires
        a <= b,
    ensures
        spec_tri(a) <= spec_tri(b),
    decreases b,
{
    if a < b && b > 0 {
        lemma_tri_mono(a, b - 1);
    }
}

/// The descent budget of a fresh jump is `MAX_DESCENT`.
pub proof fn lemma_max_descent()
    ensures
        spec_pending_descent(JUMP_SPEED as int) == MAX_DESCENT,
{
    reveal_with_fuel(spec_tri, 25);
    assert(spec_tri(24) == 300);
}

/// The context every character state shares.
#[derive(Clone, Copy, PartialEq, Eq, Structural, Debug)]
pub struct RedHatBoyContext {
    pub frame: u8,
    pub position: Point,
    pub velocity: Point,
    pub audio: Audio,
    pub jump_sound: Sound,
}

impl RedHatBoyContext {
    /// The per-tick physics and animation step: advance the frame counter
    /// with wrap-around at `frame_count`, apply gravity up to the terminal
    /// velocity, integrate the vertical position and clamp it to the floor.
    /// The horizontal position is never integrated: the world scrolls
    /// instead.
    pub open spec fn spec_update(self, frame_count: u8) -> RedHatBoyContext {
        let frame: u8 = if self.frame < frame_count {
            (self.frame + 1) as u8
        } else {
            0u8
        };
        let vy: int = if self.velocity.y < TERMINAL_VELOCITY {
            self.velocity.y + GRAVITY
        } else {
            self.velocity.y as int
        };
        let y: int = if self.position.y + vy > FLOOR {
            FLOOR as int
        } else {
            self.position.y + vy
        };
        RedHatBoyContext {
            frame,
            position: Point { x: self.position.x, y: y as i16 },
            velocity: Point { x: self.velocity.x, y: vy as i16 },
            ..self
        }
    }

    /// The operating envelope every reachable context satisfies, with a
    /// state-dependent lower base for the vertical position: the position
    /// sits above the base by at least the descent the current velocity can
    /// still produce, which makes the envelope inductive under gravity.
    pub open spec fn spec_ok(self, base: int) -> bool {
        &&& self.position.x == STARTING_POINT
        &&& JUMP_SPEED <= self.velocity.y <= TERMINAL_VELOCITY
        &&& self.position.y <= FLOOR
        &&& base + spec_pending_descent(self.velocity.y as int) <= self.position.y
    }

    pub fn update(self, frame_count: u8) -> (r: RedHatBoyContext)
        requires
            i16::MIN <= self.position.y + self.velocity.y,
            self.position.y + self.velocity.y + GRAVITY <= i16::MAX,
            self.velocity.y < TERMINAL_VELOCITY ==> self.velocity.y + GRAVITY <= i16::MAX,
        ensures
            r == self.spec_update(frame_count),
    {
        let mut c = self;
        if c.frame < frame_count {
            c.frame = c.frame + 1;
        } else {
            c.frame = 0;
        }
        if c.velocity.y < TERMINAL_VELOCITY {
            c.velocity.y = c.velocity.y + GRAVITY;
        }
        c.position.y = c.position.y + c.velocity.y;
        if c.position.y > FLOOR {
            c.position.y = FLOOR;
        }
        c
    }

    fn reset_frame(self) -> (r: RedHatBoyContext)
        ensures
            r == (RedHatBoyContext { frame: 0, ..self }),
    {
        RedHatBoyContext { frame: 0, ..self }
    }

    fn run_right(self) -> (r: RedHatBoyContext)
        requires
            self.velocity.x + RUNNING_SPEED <= i16::MAX,
        ensures
            r == (RedHatBoyContext {
                velocity: Point {
                    x: (self.velocity.x + RUNNING_SPEED) as i16,
                    y: self.velocity.y,
                },
                ..self
            }),
    {
        RedHatBoyContext {
            velocity: Point { x: self.velocity.x + RUNNING_SPEED, y: self.velocity.y },
            ..self
        }
    }

    fn set_vertical_velocity(self, y: i16) -> (r: RedHatBoyContext)
        ensures
            r == (RedHatBoyContext {
                velocity: Point { x: self.velocity.x, y },
                ..self
            }),
    {
        RedHatBoyContext { velocity: Point { x: self.velocity.x, y }, ..self }
    }

    fn stop(self) -> (r: RedHatBoyContext)
        ensures
            r == (RedHatBoyContext { velocity: Point { x: 0, y: 0 }, ..self }),
    {
        RedHatBoyContext { velocity: Point { x: 0, y: 0 }, ..self }
    }

    /// Put the character's feet on the surface at height `position`.
    fn set_on(self, position: i16) -> (r: RedHatBoyContext)
        requires
            i16::MIN + PLAYER_HEIGHT <= position,
        ensures
            r == (RedHatBoyContext {
                position: Point { x: self.position.x, y: (position - PLAYER_HEIGHT) as i16 },
                ..self
            }),
    {
        RedHatBoyContext {
            position: Point { x: self.position.x, y: position - PLAYER_HEIGHT },
            ..self
        }
    }

    pub fn frame(&self) -> (r: u8)
        ensures
            r == self.frame,
    {
        self.frame
    }

    pub fn position(&self) -> (r: Point)
        ensures
            r == self.position,
    {
        self.position
    }

    pub fn velocity(&self) -> (r: Point)
        ensures
            r == self.velocity,
    {
        self.velocity
    }
}

/// State tags.  Each is a zero-sized marker owned by `RedHatBoyState`.
#[derive(Clone, Copy, PartialEq, Eq, Structural, Debug)]
pub struct Idle;

#[derive(Clone, Copy, PartialEq, Eq, Structural, Debug)]
pub struct Running;

#[derive(Clone, Copy, PartialEq, Eq, Structural, Debug)]
pub struct Sliding;

#[derive(Clone, Copy, PartialEq, Eq, Structural, Debug)]
pub struct Jumping;

#[derive(Clone, Copy, PartialEq, Eq, Structural, Debug)]
pub struct Falling;

#[derive(Clone, Copy, PartialEq, Eq, Structural, Debug)]
pub struct KnockOut;

/// The context paired with its phase tag.
#[derive(Clone, Copy, PartialEq, Eq, Structural, Debug)]
pub struct RedHatBoyState<S> {
    pub context: RedHatBoyContext,
    pub _state: S,
}

impl<S> RedHatBoyState<S> {
    pub fn context(&self) -> (r: &RedHatBoyContext)
        ensures
            *r == self.context,
    {
        &self.context
    }
}

impl RedHatBoyState<Idle> {
    /// The state a fresh character starts in: idle at the starting offset,
    /// standing on the floor, at rest.
    pub open spec fn spec_initial(audio: Audio, jump_sound: Sound) -> RedHatBoyState<Idle> {
        RedHatBoyState {
            context: RedHatBoyContext {
                frame: 0,
                position: Point { x: STARTING_POINT, y: FLOOR },
                velocity: Point { x: 0, y: 0 },
                audio,
                jump_sound,
            },
            _state: Idle,
        }
    }

    pub fn new(audio: Audio, jump_sound: Sound) -> (r: RedHatBoyState<Idle>)
        ensures
            r == RedHatBoyState::<Idle>::spec_initial(audio, jump_sound),
    {
        RedHatBoyState {
            context: RedHatBoyContext {
                frame: 0,
                position: Point { x: STARTING_POINT, y: FLOOR },
                velocity: Point { x: 0, y: 0 },
                audio,
                jump_sound,
            },
            _state: Idle,
        }
    }

    /// Start running: frame reset, fixed rightward impulse.
    pub fn run(self) -> (r: RedHatBoyState<Running>)
        requires
            self.context.velocity.x + RUNNING_SPEED <= i16::MAX,
        ensures
            r == (RedHatBoyState {
                context: RedHatBoyContext {
                    frame: 0,
                    velocity: Point {
                        x: (self.context.velocity.x + RUNNING_SPEED) as i16,
                        y: self.context.velocity.y,
                    },
                    ..self.context
                },
                _state: Running,
            }),
    {
        RedHatBoyState { context: self.context.reset_frame().run_right(), _state: Running }
    }

    pub fn frame_name(&self) -> (r: FrameLabel)
        ensures
            r == FrameLabel::Idle,
    {
        FrameLabel::Idle
    }

    pub fn update(self) -> (r: RedHatBoyState<Idle>)
        requires
            i16::MIN <= self.context.position.y + self.context.velocity.y,
            self.context.position.y + self.context.velocity.y + GRAVITY <= i16::MAX,
            self.context.velocity.y < TERMINAL_VELOCITY ==> self.context.velocity.y + GRAVITY
                <= i16::MAX,
        ensures
            r == (RedHatBoyState { context: self.context.spec_update(IDLE_FRAMES), _state: Idle }),
    {
        RedHatBoyState { context: self.context.update(IDLE_FRAMES), _state: Idle }
    }
}

impl RedHatBoyState<Running> {
    pub fn frame_name(&self) -> (r: FrameLabel)
        ensures
            r == FrameLabel::Run,
    {
        FrameLabel::Run
    }

    pub fn update(self) -> (r: RedHatBoyState<Running>)
        requires
            i16::MIN <= self.context.position.y + self.context.velocity.y,
            self.context.position.y + self.context.velocity.y + GRAVITY <= i16::MAX,
            self.context.velocity.y < TERMINAL_VELOCITY ==> self.context.velocity.y + GRAVITY
                <= i16::MAX,
        ensures
            r == (RedHatBoyState {
                context: self.context.spec_update(RUNNING_FRAMES),
                _state: Running,
            }),
    {
        RedHatBoyState { context: self.context.update(RUNNING_FRAMES), _state: Running }
    }

    /// Start a slide: frame reset, everything else kept.
    pub fn slide(self) -> (r: RedHatBoyState<Sliding>)
        ensures
            r == (RedHatBoyState {
                context: RedHatBoyContext { frame: 0, ..self.context },
                _state: Sliding,
            }),
    {
        RedHatBoyState { context: self.context.reset_frame(), _state: Sliding }
    }

    /// Start a jump: frame reset, vertical velocity set to the fixed jump
    /// impulse.  The jump sound is requested by the caller that owns the
    /// playback capability.
    pub fn jump(self) -> (r: RedHatBoyState<Jumping>)
        ensures
            r == (RedHatBoyState {
                context: RedHatBoyContext {
                    frame: 0,
                    velocity: Point { x: self.context.velocity.x, y: JUMP_SPEED },
                    ..self.context
                },
                _state: Jumping,
            }),
    {
        RedHatBoyState {
            context: self.context.reset_frame().set_vertical_velocity(JUMP_SPEED),
            _state: Jumping,
        }
    }

    /// Land with the feet on the surface at height `position`.
    pub fn land_on(self, position: i16) -> (r: RedHatBoyState<Running>)
        requires
            i16::MIN + PLAYER_HEIGHT <= position,
        ensures
            r == (RedHatBoyState {
                context: RedHatBoyContext {
                    frame: 0,
                    position: Point {
                        x: self.context.position.x,
                        y: (position - PLAYER_HEIGHT) as i16,
                    },
                    ..self.context
                },
                _state: Running,
            }),
    {
        RedHatBoyState { context: self.context.reset_frame().set_on(position), _state: Running }
    }

    /// Get knocked out: frame reset, velocity zeroed, start falling.
    pub fn knock_out(self) -> (r: RedHatBoyState<Falling>)
        ensures
            r == (RedHatBoyState {
                context: RedHatBoyContext {
                    frame: 0,
                    velocity: Point { x: 0, y: 0 },
                    ..self.context
                },
                _state: Falling,
            }),
    {
        RedHatBoyState { context: self.context.reset_frame().stop(), _state: Falling }
    }
}

impl RedHatBoyState<Sliding> {
    pub fn frame_name(&self) -> (r: FrameLabel)
        ensures
            r == FrameLabel::Slide,
    {
        FrameLabel::Slide
    }

    /// Stand back up: frame reset, everything else kept.
    pub fn stand(self) -> (r: RedHatBoyState<Running>)
        ensures
            r == (RedHatBoyState {
                context: RedHatBoyContext { frame: 0, ..self.context },
                _state: Running,
            }),
    {
        RedHatBoyState { context: self.context.reset_frame(), _state: Running }
    }

    /// Tick: the slide completes to Running exactly when the advanced frame
    /// counter reaches the slide's frame limit.
    pub fn update(self) -> (r: SlidingEndState)
        requires
            i16::MIN <= self.context.position.y + self.context.velocity.y,
            self.context.position.y + self.context.velocity.y + GRAVITY <= i16::MAX,
            self.context.velocity.y < TERMINAL_VELOCITY ==> self.context.velocity.y + GRAVITY
                <= i16::MAX,
        ensures
            ({
                let c = self.context.spec_update(SLIDING_FRAMES);
                match r {
                    SlidingEndState::Complete(s) => c.frame >= SLIDING_FRAMES && s == (
                    RedHatBoyState {
                        context: RedHatBoyContext { frame: 0, ..c },
                        _state: Running,
                    }),
                    SlidingEndState::Sliding(s) => c.frame < SLIDING_FRAMES && s == (
                    RedHatBoyState { context: c, _state: Sliding }),
                }
            }),
    {
        let context = self.context.update(SLIDING_FRAMES);
        let next = RedHatBoyState { context, _state: Sliding };
        if context.frame >= SLIDING_FRAMES {
            SlidingEndState::Complete(next.stand())
        } else {
            SlidingEndState::Sliding(next)
        }
    }

    pub fn knock_out(self) -> (r: RedHatBoyState<Falling>)
        ensures
            r == (RedHatBoyState {
                context: RedHatBoyContext {
                    frame: 0,
                    velocity: Point { x: 0, y: 0 },
                    ..self.context
                },
                _state: Falling,
            }),
    {
        RedHatBoyState { context: self.context.reset_frame().stop(), _state: Falling }
    }

    pub fn land_on(self, position: i16) -> (r: RedHatBoyState<Running>)
        requires
            i16::MIN + PLAYER_HEIGHT <= position,
        ensures
            r == (RedHatBoyState {
                context: RedHatBoyContext {
                    frame: 0,
                    position: Point {
                        x: self.context.position.x,
                        y: (position - PLAYER_HEIGHT) as i16,
                    },
                    ..self.context
                },
                _state: Running,
            }),
    {
        RedHatBoyState { context: self.context.reset_frame().set_on(position), _state: Running }
    }
}

impl RedHatBoyState<Jumping> {
    pub fn frame_name(&self) -> (r: FrameLabel)
        ensures
            r == FrameLabel::Jump,
    {
        FrameLabel::Jump
    }

    /// Tick: the jump completes to Running, landing at the game's ground
    /// height, exactly when the integrated position reaches the floor.
    pub fn update(self) -> (r: JumpingEndState)
        requires
            i16::MIN <= self.context.position.y + self.context.velocity.y,
            self.context.position.y + self.context.velocity.y + GRAVITY <= i16::MAX,
            self.context.velocity.y < TERMINAL_VELOCITY ==> self.context.velocity.y + GRAVITY
                <= i16::MAX,
        ensures
            ({
                let c = self.context.spec_update(JUMPING_FRAMES);
                match r {
                    JumpingEndState::Landing(s) => c.position.y >= FLOOR && s == (
                    RedHatBoyState {
                        context: RedHatBoyContext {
                            frame: 0,
                            position: Point {
                                x: c.position.x,
                                y: (HEIGHT - PLAYER_HEIGHT) as i16,
                            },
                            ..c
                        },
                        _state: Running,
                    }),
                    JumpingEndState::Jumping(s) => c.position.y < FLOOR && s == (
                    RedHatBoyState { context: c, _state: Jumping }),
                }
            }),
    {
        let context = self.context.update(JUMPING_FRAMES);
        let next = RedHatBoyState { context, _state: Jumping };
        if context.position.y >= FLOOR {
            JumpingEndState::Landing(next.land_on(HEIGHT))
        } else {
            JumpingEndState::Jumping(next)
        }
    }

    pub fn knock_out(self) -> (r: RedHatBoyState<Falling>)
        ensures
            r == (RedHatBoyState {
                context: RedHatBoyContext {
                    frame: 0,
                    velocity: Point { x: 0, y: 0 },
                    ..self.context
                },
                _state: Falling,
            }),
    {
        RedHatBoyState { context: self.context.reset_frame().stop(), _state: Falling }
    }

    pub fn land_on(self, position: i16) -> (r: RedHatBoyState<Running>)
        requires
            i16::MIN + PLAYER_HEIGHT <= position,
        ensures
            r == (RedHatBoyState {
                context: RedHatBoyContext {
                    frame: 0,
                    position: Point {
                        x: self.context.position.x,
                        y: (position - PLAYER_HEIGHT) as i16,
                    },
                    ..self.context
                },
                _state: Running,
            }),
    {
        RedHatBoyState { context: self.context.reset_frame().set_on(position), _state: Running }
    }
}

impl RedHatBoyState<Falling> {
    pub fn frame_name(&self) -> (r: FrameLabel)
        ensures
            r == FrameLabel::Dead,
    {
        FrameLabel::Dead
    }

    /// The fall ends: the context is carried over unchanged.
    pub fn knock_out(self) -> (r: RedHatBoyState<KnockOut>)
        ensures
            r == (RedHatBoyState { context: self.context, _state: KnockOut }),
    {
        RedHatBoyState { context: self.context, _state: KnockOut }
    }

    /// Tick: the fall completes to the terminal KnockOut state exactly when
    /// the advanced frame counter reaches the fall's frame limit.
    pub fn update(self) -> (r: FallingEndState)
        requires
            i16::MIN <= self.context.position.y + self.context.velocity.y,
            self.context.position.y + self.context.velocity.y + GRAVITY <= i16::MAX,
            self.context.velocity.y < TERMINAL_VELOCITY ==> self.context.velocity.y + GRAVITY
                <= i16::MAX,
        ensures
            ({
                let c = self.context.spec_update(FALLING_FRAMES);
                match r {
                    FallingEndState::KnockOut(s) => c.frame >= FALLING_FRAMES && s == (
                    RedHatBoyState { context: c, _state: KnockOut }),
                    FallingEndState::Falling(s) => c.frame < FALLING_FRAMES && s == (
                    RedHatBoyState { context: c, _state: Falling }),
                }
            }),
    {
        let context = self.context.update(FALLING_FRAMES);
        let next = RedHatBoyState { context, _state: Falling };
        if context.frame >= FALLING_FRAMES {
            FallingEndState::KnockOut(next.knock_out())
        } else {
            FallingEndState::Falling(next)
        }
    }
}

impl RedHatBoyState<KnockOut> {
    pub fn frame_name(&self) -> (r: FrameLabel)
        ensures
            r == FrameLabel::Dead,
    {
        FrameLabel::Dead
    }
}

/// Outcome of a sliding tick.
pub enum SlidingEndState {
    Complete(RedHatBoyState<Running>),
    Sliding(RedHatBoyState<Sliding>),
}

/// Outcome of a jumping tick.
pub enum JumpingEndState {
    Landing(RedHatBoyState<Running>),
    Jumping(RedHatBoyState<Jumping>),
}

/// Outcome of a falling tick.
pub enum FallingEndState {
    KnockOut(RedHatBoyState<KnockOut>),
    Falling(RedHatBoyState<Falling>),
}

/// Everything that can happen to the character.
#[derive(Clone, Copy, PartialEq, Eq, Structural, Debug)]
pub enum Event {
    Run,
    Slide,
    Update,
    KnockOut,
    Jump,
    Land(i16),
}

/// A `Land(y)` event carries a surface height inside the play area.
pub open spec fn spec_event_valid(event: Event) -> bool {
    match event {
        Event::Land(p) => 0 <= p <= HEIGHT,
        _ => true,
    }
}

/// The context after a landing with the feet at `position`.
pub open spec fn spec_landed(c: RedHatBoyContext, position: int) -> RedHatBoyContext {
    RedHatBoyContext {
        frame: 0,
        position: Point { x: c.position.x, y: (position - PLAYER_HEIGHT) as i16 },
        ..c
    }
}

/// The context after a knockout: frame reset, velocity zeroed.
pub open spec fn spec_knocked(c: RedHatBoyContext) -> RedHatBoyContext {
    RedHatBoyContext { frame: 0, velocity: Point { x: 0, y: 0 }, ..c }
}

/// The live character state: exactly one variant at a time; transitions
/// consume the old value and build the next one.
#[derive(Clone, Copy, PartialEq, Eq, Structural, Debug)]
pub enum RedHatBoyStateMachine {
    Idle(RedHatBoyState<Idle>),
    Running(RedHatBoyState<Running>),
    Sliding(RedHatBoyState<Sliding>),
    Jumping(RedHatBoyState<Jumping>),
    Falling(RedHatBoyState<Falling>),
    KnockOut(RedHatBoyState<KnockOut>),
}

impl RedHatBoyStateMachine {
    /// The shared context of whichever state is live.
    pub open spec fn spec_context(self) -> RedHatBoyContext {
        match self {
            RedHatBoyStateMachine::Idle(s) => s.context,
            RedHatBoyStateMachine::Running(s) => s.context,
            RedHatBoyStateMachine::Sliding(s) => s.context,
            RedHatBoyStateMachine::Jumping(s) => s.context,
            RedHatBoyStateMachine::Falling(s) => s.context,
            RedHatBoyStateMachine::KnockOut(s) => s.context,
        }
    }

    /// The transition table.  Every (state, event) pair not listed is an
    /// identity transition, so the machine is total and never rejects an
    /// event.
    pub open spec fn spec_transition(self, event: Event) -> RedHatBoyStateMachine {
        match (self, event) {
            (RedHatBoyStateMachine::Idle(s), Event::Run) => RedHatBoyStateMachine::Running(
                RedHatBoyState {
                    context: RedHatBoyContext {
                        frame: 0,
                        velocity: Point {
                            x: (s.context.velocity.x + RUNNING_SPEED) as i16,
                            y: s.context.velocity.y,
                        },
                        ..s.context
                    },
                    _state: Running,
                },
            ),
            (RedHatBoyStateMachine::Running(s), Event::Jump) => RedHatBoyStateMachine::Jumping(
                RedHatBoyState {
                    context: RedHatBoyContext {
                        frame: 0,
                        velocity: Point { x: s.context.velocity.x, y: JUMP_SPEED },
                        ..s.context
                    },
                    _state: Jumping,
                },
            ),
            (RedHatBoyStateMachine::Running(s), Event::Slide) => RedHatBoyStateMachine::Sliding(
                RedHatBoyState {
                    context: RedHatBoyContext { frame: 0, ..s.context },
                    _state: Sliding,
                },
            ),
            (RedHatBoyStateMachine::Running(s), Event::KnockOut) => RedHatBoyStateMachine::Falling(
                RedHatBoyState { context: spec_knocked(s.context), _state: Falling },
            ),
            (RedHatBoyStateMachine::Running(s), Event::Land(p)) => RedHatBoyStateMachine::Running(
                RedHatBoyState { context: spec_landed(s.context, p as int), _state: Running },
            ),
            (RedHatBoyStateMachine::Jumping(s), Event::Land(p)) => RedHatBoyStateMachine::Running(
                RedHatBoyState { context: spec_landed(s.context, p as int), _state: Running },
            ),
            (RedHatBoyStateMachine::Jumping(s), Event::KnockOut) => RedHatBoyStateMachine::Falling(
                RedHatBoyState { context: spec_knocked(s.context), _state: Falling },
            ),
            (RedHatBoyStateMachine::Sliding(s), Event::KnockOut) => RedHatBoyStateMachine::Falling(
                RedHatBoyState { context: spec_knocked(s.context), _state: Falling },
            ),
            (RedHatBoyStateMachine::Sliding(s), Event::Land(p)) => RedHatBoyStateMachine::Running(
                RedHatBoyState { context: spec_landed(s.context, p as int), _state: Running },
            ),
            (RedHatBoyStateMachine::Idle(s), Event::Update) => RedHatBoyStateMachine::Idle(
                RedHatBoyState { context: s.context.spec_update(IDLE_FRAMES), _state: Idle },
            ),
            (RedHatBoyStateMachine::Running(s), Event::Update) => RedHatBoyStateMachine::Running(
                RedHatBoyState { context: s.context.spec_update(RUNNING_FRAMES), _state: Running },
            ),
            (RedHatBoyStateMachine::Sliding(s), Event::Update) => {
                let c = s.context.spec_update(SLIDING_FRAMES);
                if c.frame >= SLIDING_FRAMES {
                    RedHatBoyStateMachine::Running(
                        RedHatBoyState { context: RedHatBoyContext { frame: 0, ..c }, _state: Running },
                    )
                } else {
                    RedHatBoyStateMachine::Sliding(RedHatBoyState { context: c, _state: Sliding })
                }
            },
            (RedHatBoyStateMachine::Jumping(s), Event::Update) => {
                let c = s.context.spec_update(JUMPING_FRAMES);
                if c.position.y >= FLOOR {
                    RedHatBoyStateMachine::Running(
                        RedHatBoyState { context: spec_landed(c, HEIGHT as int), _state: Running },
                    )
                } else {
                    RedHatBoyStateMachine::Jumping(RedHatBoyState { context: c, _state: Jumping })
                }
            },
            (RedHatBoyStateMachine::Falling(s), Event::Update) => {
                let c = s.context.spec_update(FALLING_FRAMES);
                if c.frame >= FALLING_FRAMES {
                    RedHatBoyStateMachine::KnockOut(RedHatBoyState { context: c, _state: KnockOut })
                } else {
                    RedHatBoyStateMachine::Falling(RedHatBoyState { context: c, _state: Falling })
                }
            },
            _ => self,
        }
    }

    /// The machine's well-formedness: the operating envelope of the context
    /// with a per-state position base, the per-state animation frame bound,
    /// and the per-state horizontal velocity (only the grounded run carries
    /// the rightward impulse; falling and knocked-out are stopped).
    pub open spec fn wf(self) -> bool {
        match self {
            RedHatBoyStateMachine::Idle(s) => {
                &&& s.context.velocity.x == 0
                &&& s.context.velocity.y >= 0
                &&& s.context.frame <= IDLE_FRAMES
                &&& s.context.spec_ok(GROUND_MIN_Y as int)
            },
            RedHatBoyStateMachine::Running(s) => {
                &&& s.context.velocity.x == RUNNING_SPEED
                &&& s.context.frame <= RUNNING_FRAMES
                &&& s.context.spec_ok(GROUND_MIN_Y as int)
            },
            RedHatBoyStateMachine::Sliding(s) => {
                &&& s.context.velocity.x == RUNNING_SPEED
                &&& s.context.frame <= SLIDING_FRAMES
                &&& s.context.spec_ok(GROUND_MIN_Y as int)
            },
            RedHatBoyStateMachine::Jumping(s) => {
                &&& s.context.velocity.x == RUNNING_SPEED
                &&& s.context.frame <= JUMPING_FRAMES
                &&& s.context.spec_ok(AIR_MIN_Y as int)
            },
            RedHatBoyStateMachine::Falling(s) => {
                &&& s.context.velocity.x == 0
                &&& s.context.velocity.y >= 0
                &&& s.context.frame <= FALLING_FRAMES
                &&& s.context.spec_ok(AIR_MIN_Y as int)
            },
            RedHatBoyStateMachine::KnockOut(s) => {
                &&& s.context.velocity.x == 0
                &&& s.context.velocity.y >= 0
                &&& s.context.frame <= FALLING_FRAMES
                &&& s.context.spec_ok(AIR_MIN_Y as int)
            },
        }
    }
}

/// The physics step keeps a context inside its operating envelope: gravity
/// spends the descent budget exactly as fast as the position falls, and the
/// floor clamp keeps the position under `FLOOR`.
pub proof fn lemma_update_preserves_ok(c: RedHatBoyContext, frame_count: u8, base: int)
    requires
        c.spec_ok(base),
        AIR_MIN_Y <= base,
        base + MAX_DESCENT <= FLOOR,
    ensures
        c.spec_update(frame_count).spec_ok(base),
        c.spec_update(frame_count).velocity.y >= c.velocity.y,
        c.spec_update(frame_count).velocity.x == c.velocity.x,
        c.spec_update(frame_count).frame <= frame_count,
        c.spec_update(frame_count).position.x == c.position.x,
        c.spec_update(frame_count).audio == c.audio,
        c.spec_update(frame_count).jump_sound == c.jump_sound,
{
    let vy = c.velocity.y as int;
    lemma_tri_nonneg(-vy - 1);
    lemma_tri_nonneg(-vy - 2);
    lemma_tri_mono(-vy - 2, 24);
    lemma_max_descent();
    assert(spec_tri(24) == 300) by {
        reveal_with_fuel(spec_tri, 25);
    }
}

impl RedHatBoyStateMachine {
    /// Apply one event.  Unmatched (state, event) pairs return the machine
    /// unchanged.
    pub fn transition(self, event: Event) -> (r: RedHatBoyStateMachine)
        requires
            self.wf(),
            spec_event_valid(event),
        ensures
            r == self.spec_transition(event),
            r.wf(),
    {
        proof {
            lemma_tri_nonneg(-self.spec_context().velocity.y - 1);
            lemma_transition_preserves_wf(self, event);
        }
        match (self, event) {
            (RedHatBoyStateMachine::Idle(state), Event::Run) => RedHatBoyStateMachine::Running(
                state.run(),
            ),
            (RedHatBoyStateMachine::Running(state), Event::Jump) => RedHatBoyStateMachine::Jumping(
                state.jump(),
            ),
            (RedHatBoyStateMachine::Running(state), Event::Slide) => RedHatBoyStateMachine::Sliding(
                state.slide(),
            ),
            (RedHatBoyStateMachine::Running(state), Event::KnockOut) => {
                RedHatBoyStateMachine::Falling(state.knock_out())
            },
            (RedHatBoyStateMachine::Running(state), Event::Land(position)) => {
                RedHatBoyStateMachine::Running(state.land_on(position))
            },
            (RedHatBoyStateMachine::Jumping(state), Event::Land(position)) => {
                RedHatBoyStateMachine::Running(state.land_on(position))
            },
            (RedHatBoyStateMachine::Jumping(state), Event::KnockOut) => {
                RedHatBoyStateMachine::Falling(state.knock_out())
            },
            (RedHatBoyStateMachine::Sliding(state), Event::KnockOut) => {
                RedHatBoyStateMachine::Falling(state.knock_out())
            },
            (RedHatBoyStateMachine::Sliding(state), Event::Land(position)) => {
                RedHatBoyStateMachine::Running(state.land_on(position))
            },
            (RedHatBoyStateMachine::Idle(state), Event::Update) => RedHatBoyStateMachine::Idle(
                state.update(),
            ),
            (RedHatBoyStateMachine::Running(state), Event::Update) => {
                RedHatBoyStateMachine::Running(state.update())
            },
            (RedHatBoyStateMachine::Sliding(state), Event::Update) => match state.update() {
                SlidingEndState::Complete(s) => RedHatBoyStateMachine::Running(s),
                SlidingEndState::Sliding(s) => RedHatBoyStateMachine::Sliding(s),
            },
            (RedHatBoyStateMachine::Jumping(state), Event::Update) => match state.update() {
                JumpingEndState::Landing(s) => RedHatBoyStateMachine::Running(s),
                JumpingEndState::Jumping(s) => RedHatBoyStateMachine::Jumping(s),
            },
            (RedHatBoyStateMachine::Falling(state), Event::Update) => match state.update() {
                FallingEndState::KnockOut(s) => RedHatBoyStateMachine::KnockOut(s),
                FallingEndState::Falling(s) => RedHatBoyStateMachine::Falling(s),
            },
            _ => self,
        }
    }

    /// One tick.
    pub fn update(self) -> (r: RedHatBoyStateMachine)
        requires
            self.wf(),
        ensures
            r == self.spec_transition(Event::Update),
            r.wf(),
    {
        self.transition(Event::Update)
    }

    /// The pose label of the live state, for sprite lookup.
    pub fn frame_name(&self) -> (r: FrameLabel)
        ensures
            r == self.spec_frame_name(),
    {
        match self {
            RedHatBoyStateMachine::Idle(state) => state.frame_name(),
            RedHatBoyStateMachine::Running(state) => state.frame_name(),
            RedHatBoyStateMachine::Sliding(state) => state.frame_name(),
            RedHatBoyStateMachine::Jumping(state) => state.frame_name(),
            RedHatBoyStateMachine::KnockOut(state) => state.frame_name(),
            RedHatBoyStateMachine::Falling(state) => state.frame_name(),
        }
    }

    /// The pose label per state; falling and knocked-out share the art.
    pub open spec fn spec_frame_name(self) -> FrameLabel {
        match self {
            RedHatBoyStateMachine::Idle(_) => FrameLabel::Idle,
            RedHatBoyStateMachine::Running(_) => FrameLabel::Run,
            RedHatBoyStateMachine::Sliding(_) => FrameLabel::Slide,
            RedHatBoyStateMachine::Jumping(_) => FrameLabel::Jump,
            RedHatBoyStateMachine::Falling(_) => FrameLabel::Dead,
            RedHatBoyStateMachine::KnockOut(_) => FrameLabel::Dead,
        }
    }

    pub fn context(&self) -> (r: &RedHatBoyContext)
        ensures
            *r == self.spec_context(),
    {
        match self {
            RedHatBoyStateMachine::Idle(state) => state.context(),
            RedHatBoyStateMachine::Running(state) => state.context(),
            RedHatBoyStateMachine::Sliding(state) => state.context(),
            RedHatBoyStateMachine::Jumping(state) => state.context(),
            RedHatBoyStateMachine::KnockOut(state) => state.context(),
            RedHatBoyStateMachine::Falling(state) => state.context(),
        }
    }

    /// The terminal state: no event changes a knocked-out machine.
    pub fn knocked_out(&self) -> (r: bool)
        ensures
            r == (self is KnockOut),
    {
        matches!(self, RedHatBoyStateMachine::KnockOut(_))
    }
}

/// Hit-box inset from the drawn sprite: the collision box starts this far
/// right of the destination box.
pub const HITBOX_X_OFFSET: i16 = 18;

/// Hit-box inset from the top of the destination box, also taken off the
/// height.
pub const HITBOX_Y_OFFSET: i16 = 14;

/// How much narrower the hit box is than the destination box.
pub const HITBOX_WIDTH_OFFSET: i16 = 28;

/// A sprite key the character machine can ask for: each pose label with
/// the 1-indexed display frames its tick limit allows (one displayed frame
/// per three ticks).
pub open spec fn spec_valid_boy_key(key: SpriteKey) -> bool {
    match key.label {
        FrameLabel::Idle => 1 <= key.index <= IDLE_FRAMES / 3 + 1,
        FrameLabel::Run => 1 <= key.index <= RUNNING_FRAMES / 3 + 1,
        FrameLabel::Slide => 1 <= key.index <= SLIDING_FRAMES / 3 + 1,
        FrameLabel::Jump => 1 <= key.index <= JUMPING_FRAMES / 3 + 1,
        FrameLabel::Dead => 1 <= key.index <= FALLING_FRAMES / 3 + 1,
        FrameLabel::Tile => false,
    }
}

/// A sheet that can render the character holds every key the machine can
/// ask for.
pub open spec fn spec_boy_sheet_complete(sheet: Sheet) -> bool {
    forall|key: SpriteKey| spec_valid_boy_key(key) ==> (#[trigger] sheet.spec_lookup(key)) is Some
}

/// The character wrapper: the live state machine plus its sprite sheet and
/// sheet image.
pub struct RedHatBoy {
    pub state_machine: RedHatBoyStateMachine,
    pub sprite_sheet: Sheet,
    pub image: ImageHandle,
}

impl RedHatBoy {
    /// Well-formed: the machine is inside its envelope and the sheet can
    /// render every state the machine can reach.
    pub open spec fn wf(self) -> bool {
        &&& self.state_machine.wf()
        &&& self.sprite_sheet.spec_bounded()
        &&& spec_boy_sheet_complete(self.sprite_sheet)
    }

    /// The key of the sprite to display: the live state's pose label and
    /// the 1-indexed display frame (one displayed frame per three ticks).
    pub open spec fn spec_frame_key(self) -> SpriteKey {
        SpriteKey {
            label: self.state_machine.spec_frame_name(),
            index: (self.state_machine.spec_context().frame / 3 + 1) as u8,
        }
    }

    /// The cell the current frame displays.
    pub open spec fn spec_current_cell(self) -> Cell {
        self.sprite_sheet.spec_lookup(self.spec_frame_key()).unwrap()
    }

    /// Where the current sprite is drawn: the character's position shifted
    /// by the sprite's trim offset, with the sprite's pixel size.
    pub open spec fn spec_destination_box(self) -> Rect {
        let c = self.state_machine.spec_context();
        let cell = self.spec_current_cell();
        Rect {
            position: Point {
                x: (c.position.x + cell.sprite_source_size.x) as i16,
                y: (c.position.y + cell.sprite_source_size.y) as i16,
            },
            width: cell.frame.w,
            height: cell.frame.h,
        }
    }

    /// The collision box: the destination box inset by the fixed hit-box
    /// offsets, so sprite padding does not cause collisions.
    pub open spec fn spec_bounding_box(self) -> Rect {
        let dest = self.spec_destination_box();
        Rect {
            position: Point {
                x: (dest.position.x + HITBOX_X_OFFSET) as i16,
                y: (dest.position.y + HITBOX_Y_OFFSET) as i16,
            },
            width: (dest.width - HITBOX_WIDTH_OFFSET) as i16,
            height: (dest.height - HITBOX_Y_OFFSET) as i16,
        }
    }

    /// A well-formed machine only asks for valid sprite keys.
    pub proof fn lemma_wf_frame_key_valid(self)
        requires
            self.state_machine.wf(),
        ensures
            spec_valid_boy_key(self.spec_frame_key()),
    {
    }

    pub fn new(sheet: Sheet, image: ImageHandle, audio: Audio, sound: Sound) -> (r: RedHatBoy)
        ensures
            r.state_machine == RedHatBoyStateMachine::Idle(RedHatBoyState::<Idle>::spec_initial(
                audio,
                sound,
            )),
            r.sprite_sheet == sheet,
            r.image == image,
            sheet.spec_bounded() && spec_boy_sheet_complete(sheet) ==> r.wf(),
    {
        let r = RedHatBoy {
            state_machine: RedHatBoyStateMachine::Idle(RedHatBoyState::<Idle>::new(audio, sound)),
            sprite_sheet: sheet,
            image,
        };
        proof {
            lemma_tri_nonneg(-1);
        }
        r
    }

    /// Tear the character down to a fresh Idle one, reusing its loaded
    /// assets and audio handles.
    pub fn reset(boy: RedHatBoy) -> (r: RedHatBoy)
        ensures
            r.state_machine == RedHatBoyStateMachine::Idle(RedHatBoyState::<Idle>::spec_initial(
                boy.state_machine.spec_context().audio,
                boy.state_machine.spec_context().jump_sound,
            )),
            r.sprite_sheet == boy.sprite_sheet,
            r.image == boy.image,
            boy.sprite_sheet.spec_bounded() && spec_boy_sheet_complete(boy.sprite_sheet)
                ==> r.wf(),
    {
        let audio = boy.state_machine.context().audio;
        let sound = boy.state_machine.context().jump_sound;
        RedHatBoy::new(boy.sprite_sheet, boy.image, audio, sound)
    }

    pub fn update(&mut self)
        requires
            old(self).wf(),
        ensures
            final(self).state_machine == old(self).state_machine.spec_transition(Event::Update),
            final(self).sprite_sheet == old(self).sprite_sheet,
            final(self).image == old(self).image,
            final(self).wf(),
    {
        self.state_machine = self.state_machine.transition(Event::Update);
    }

    pub fn run_right(&mut self)
        requires
            old(self).wf(),
        ensures
            final(self).state_machine == old(self).state_machine.spec_transition(Event::Run),
            final(self).sprite_sheet == old(self).sprite_sheet,
            final(self).image == old(self).image,
            final(self).wf(),
    {
        self.state_machine = self.state_machine.transition(Event::Run);
    }

    pub fn slide(&mut self)
        requires
            old(self).wf(),
        ensures
            final(self).state_machine == old(self).state_machine.spec_transition(Event::Slide),
            final(self).sprite_sheet == old(self).sprite_sheet,
            final(self).image == old(self).image,
            final(self).wf(),
    {
        self.state_machine = self.state_machine.transition(Event::Slide);
    }

    /// Jump.  When this starts a jump (only from Running), the caller owns
    /// requesting the jump sound from the context's handles.
    pub fn jump(&mut self)
        requires
            old(self).wf(),
        ensures
            final(self).state_machine == old(self).state_machine.spec_transition(Event::Jump),
            final(self).sprite_sheet == old(self).sprite_sheet,
            final(self).image == old(self).image,
            final(self).wf(),
    {
        self.state_machine = self.state_machine.transition(Event::Jump);
    }

    pub fn knock_out(&mut self)
        requires
            old(self).wf(),
        ensures
            final(self).state_machine == old(self).state_machine.spec_transition(Event::KnockOut),
            final(self).sprite_sheet == old(self).sprite_sheet,
            final(self).image == old(self).image,
            final(self).wf(),
    {
        self.state_machine = self.state_machine.transition(Event::KnockOut);
    }

    pub fn land_on(&mut self, position: i16)
        requires
            old(self).wf(),
            0 <= position <= HEIGHT,
        ensures
            final(self).state_machine == old(self).state_machine.spec_transition(
                Event::Land(position),
            ),
            final(self).sprite_sheet == old(self).sprite_sheet,
            final(self).image == old(self).image,
            final(self).wf(),
    {
        self.state_machine = self.state_machine.transition(Event::Land(position));
    }

    pub fn frame_key(&self) -> (r: SpriteKey)
        ensures
            r == self.spec_frame_key(),
    {
        SpriteKey { label: self.state_machine.frame_name(), index: self.state_machine.context().frame() / 3 + 1 }
    }

    pub fn current_sprite(&self) -> (r: Option<&Cell>)
        ensures
            match r {
                Some(c) => self.sprite_sheet.spec_lookup(self.spec_frame_key()) == Some(*c),
                None => self.sprite_sheet.spec_lookup(self.spec_frame_key()) is None,
            },
    {
        let key = self.frame_key();
        self.sprite_sheet.get(key)
    }

    pub fn destination_box(&self) -> (r: Rect)
        requires
            self.wf(),
        ensures
            r == self.spec_destination_box(),
    {
        proof {
            self.lemma_wf_frame_key_valid();
            crate::sheet::lemma_bounded_sheet_lookup(self.sprite_sheet, self.spec_frame_key());
            lemma_tri_nonneg(-self.state_machine.spec_context().velocity.y - 1);
        }
        let position = self.state_machine.context().position();
        match self.current_sprite() {
            Some(sprite) => Rect::new_from_x_y(
                position.x + sprite.sprite_source_size.x,
                position.y + sprite.sprite_source_size.y,
                sprite.frame.w,
                sprite.frame.h,
            ),
            None => vstd::pervasive::unreached(),
        }
    }

    pub fn bounding_box(&self) -> (r: Rect)
        requires
            self.wf(),
        ensures
            r == self.spec_bounding_box(),
    {
        proof {
            self.lemma_wf_frame_key_valid();
            crate::sheet::lemma_bounded_sheet_lookup(self.sprite_sheet, self.spec_frame_key());
            lemma_tri_nonneg(-self.state_machine.spec_context().velocity.y - 1);
        }
        let mut bounding_box = self.destination_box();
        bounding_box.set_x(bounding_box.x() + HITBOX_X_OFFSET);
        bounding_box.width = bounding_box.width - HITBOX_WIDTH_OFFSET;
        bounding_box.set_y(bounding_box.y() + HITBOX_Y_OFFSET);
        bounding_box.height = bounding_box.height - HITBOX_Y_OFFSET;
        bounding_box
    }

    /// Emit the draw command for the current sprite.
    pub fn draw(&self, renderer: &mut Renderer)
        requires
            self.wf(),
        ensures
            final(renderer).commands@ == old(renderer).commands@.push(
                DrawCommand::Image {
                    image: self.image,
                    source: Rect {
                        position: Point {
                            x: self.spec_current_cell().frame.x,
                            y: self.spec_current_cell().frame.y,
                        },
                        width: self.spec_current_cell().frame.w,
                        height: self.spec_current_cell().frame.h,
                    },
                    destination: self.spec_destination_box(),
                },
            ),
    {
        proof {
            self.lemma_wf_frame_key_valid();
            crate::sheet::lemma_bounded_sheet_lookup(self.sprite_sheet, self.spec_frame_key());
            lemma_tri_nonneg(-self.state_machine.spec_context().velocity.y - 1);
        }
        let destination = self.destination_box();
        match self.current_sprite() {
            Some(sprite) => {
                let source = Rect::new_from_x_y(
                    sprite.frame.x,
                    sprite.frame.y,
                    sprite.frame.w,
                    sprite.frame.h,
                );
                renderer.draw_image(&self.image, &source, &destination);
            },
            None => vstd::pervasive::unreached(),
        }
    }

    pub fn pos_y(&self) -> (r: i16)
        ensures
            r == self.state_machine.spec_context().position.y,
    {
        self.state_machine.context().position().y
    }

    pub fn velocity_y(&self) -> (r: i16)
        ensures
            r == self.state_machine.spec_context().velocity.y,
    {
        self.state_machine.context().velocity().y
    }

    pub fn walking_speed(&self) -> (r: i16)
        ensures
            r == self.state_machine.spec_context().velocity.x,
    {
        self.state_machine.context().velocity().x
    }

    pub fn knocked_out(&self) -> (r: bool)
        ensures
            r == (self.state_machine is KnockOut),
    {
        self.state_machine.knocked_out()
    }
}

/// Every valid event takes a well-formed machine to a well-formed machine:
/// transitions are total and keep the physics inside its envelope.
pub proof fn lemma_transition_preserves_wf(m: RedHatBoyStateMachine, event: Event)
    requires
        m.wf(),
        spec_event_valid(event),
    ensures
        m.spec_transition(event).wf(),
{
    let c = m.spec_context();
    let vy = c.velocity.y as int;
    lemma_tri_nonneg(-vy - 1);
    lemma_tri_mono(-vy - 1, 24);
    lemma_max_descent();
    assert(spec_tri(24) == 300) by {
        reveal_with_fuel(spec_tri, 25);
    }
    match (m, event) {
        (RedHatBoyStateMachine::Idle(s), Event::Update) => {
            lemma_update_preserves_ok(s.context, IDLE_FRAMES, GROUND_MIN_Y as int);
        },
        (RedHatBoyStateMachine::Running(s), Event::Update) => {
            lemma_update_preserves_ok(s.context, RUNNING_FRAMES, GROUND_MIN_Y as int);
        },
        (RedHatBoyStateMachine::Sliding(s), Event::Update) => {
            lemma_update_preserves_ok(s.context, SLIDING_FRAMES, GROUND_MIN_Y as int);
        },
        (RedHatBoyStateMachine::Jumping(s), Event::Update) => {
            lemma_update_preserves_ok(s.context, JUMPING_FRAMES, AIR_MIN_Y as int);
            let c2 = s.context.spec_update(JUMPING_FRAMES);
            if c2.position.y >= FLOOR {
                lemma_tri_nonneg(-c2.velocity.y - 1);
                lemma_tri_mono(-c2.velocity.y - 1, 24);
            }
        },
        (RedHatBoyStateMachine::Falling(s), Event::Update) => {
            lemma_update_preserves_ok(s.context, FALLING_FRAMES, AIR_MIN_Y as int);
        },
        _ => {},
    }
}

/// A well-formed character's hit box stays in a small band around the
/// origin: its position is pinned and its sprite cells are bounded, so
/// every edge computation on it fits comfortably in `i16`.
pub proof fn lemma_wf_bounding_box_in_range(boy: RedHatBoy)
    requires
        boy.wf(),
    ensures
        boy.spec_bounding_box().edges_in_range(),
        -3000 <= boy.spec_bounding_box().position.x <= 3000,
        -3000 <= boy.spec_bounding_box().position.y <= 3000,
        -3000 <= boy.spec_bounding_box().spec_right() <= 3000,
        -3000 <= boy.spec_bounding_box().spec_bottom() <= 3000,
        boy.spec_destination_box().edges_in_range(),
{
    boy.lemma_wf_frame_key_valid();
    crate::sheet::lemma_bounded_sheet_lookup(boy.sprite_sheet, boy.spec_frame_key());
    lemma_tri_nonneg(-boy.state_machine.spec_context().velocity.y - 1);
}

/// The machine after `n` ticks.
pub open spec fn spec_updates(m: RedHatBoyStateMachine, n: nat) -> RedHatBoyStateMachine
    decreases n,
{
    if n == 0 {
        m
    } else {
        spec_updates(m, (n - 1) as nat).spec_transition(Event::Update)
    }
}

/// One idle tick advances the frame counter by one and wraps it to 0
/// exactly on the tick after it has reached the idle frame limit.
pub proof fn lemma_idle_step_frame_wrap(s: RedHatBoyState<Idle>)
    ensures
        RedHatBoyStateMachine::Idle(s).spec_transition(Event::Update).spec_context().frame == (
        if s.context.frame < IDLE_FRAMES {
            s.context.frame + 1
        } else {
            0
        }),
{
}

/// Updates keep an idle character idle and in place: the frame counter
/// cycles within `[0, IDLE_FRAMES]`, and the position never changes, since
/// the floor clamp cancels gravity and idling gets no horizontal impulse.
pub proof fn lemma_idle_updates_cycle_in_place(s: RedHatBoyState<Idle>, n: nat)
    requires
        RedHatBoyStateMachine::Idle(s).wf(),
        s.context.position.y == FLOOR,
    ensures
        ({
            let m = spec_updates(RedHatBoyStateMachine::Idle(s), n);
            &&& m is Idle
            &&& m.wf()
            &&& m.spec_context().position == s.context.position
            &&& m.spec_context().frame <= IDLE_FRAMES
            &&& m.spec_context().velocity.y >= 0
        }),
    decreases n,
{
    if n > 0 {
        lemma_idle_updates_cycle_in_place(s, (n - 1) as nat);
        let prev = spec_updates(RedHatBoyStateMachine::Idle(s), (n - 1) as nat);
        lemma_transition_preserves_wf(prev, Event::Update);
    }
}

/// From a fresh slide, the k-th tick leaves the machine Sliding with frame
/// counter `k` for every `k` below `SLIDING_FRAMES`, and the tick on which
/// the counter reaches `SLIDING_FRAMES` — no earlier one — completes the
/// slide to Running with the frame reset.
pub proof fn lemma_sliding_completes_at_limit(s: RedHatBoyState<Sliding>, n: nat)
    requires
        RedHatBoyStateMachine::Sliding(s).wf(),
        s.context.frame == 0,
        n <= SLIDING_FRAMES,
    ensures
        ({
            let m = spec_updates(RedHatBoyStateMachine::Sliding(s), n);
            &&& m.wf()
            &&& n < SLIDING_FRAMES ==> m is Sliding && m.spec_context().frame == n
            &&& n == SLIDING_FRAMES ==> m is Running && m.spec_context().frame == 0
        }),
    decreases n,
{
    if n > 0 {
        lemma_sliding_completes_at_limit(s, (n - 1) as nat);
        let prev = spec_updates(RedHatBoyStateMachine::Sliding(s), (n - 1) as nat);
        lemma_transition_preserves_wf(prev, Event::Update);
    }
}

/// From a fresh fall, ticks keep the machine Falling with frame counter
/// `k` until the counter reaches `FALLING_FRAMES`; that tick — and only
/// that tick — completes the fall to KnockOut, and every later tick leaves
/// the knocked-out machine exactly as it was: the transition happens once
/// and the state is terminal.
pub proof fn lemma_falling_knocks_out_once(s: RedHatBoyState<Falling>, n: nat)
    requires
        RedHatBoyStateMachine::Falling(s).wf(),
        s.context.frame == 0,
    ensures
        ({
            let m = spec_updates(RedHatBoyStateMachine::Falling(s), n);
            &&& m.wf()
            &&& n < FALLING_FRAMES ==> m is Falling && m.spec_context().frame == n
            &&& n >= FALLING_FRAMES ==> m is KnockOut && m == spec_updates(
                RedHatBoyStateMachine::Falling(s),
                FALLING_FRAMES as nat,
            )
        }),
    decreases n,
{
    if n > 0 {
        lemma_falling_knocks_out_once(s, (n - 1) as nat);
        let prev = spec_updates(RedHatBoyStateMachine::Falling(s), (n - 1) as nat);
        lemma_transition_preserves_wf(prev, Event::Update);
    }
}

/// KnockOut is terminal: no event at all changes a knocked-out machine.
pub proof fn lemma_knocked_out_terminal(s: RedHatBoyState<KnockOut>, event: Event)
    ensures
        RedHatBoyStateMachine::KnockOut(s).spec_transition(event)
            == RedHatBoyStateMachine::KnockOut(s),
{
}

/// One jumping tick lands exactly when the integrated position reaches the
/// floor: the machine becomes Running with the frame reset and the feet at
/// the ground height; otherwise it stays Jumping with the updated context.
pub proof fn lemma_jumping_update_lands_at_floor(s: RedHatBoyState<Jumping>)
    ensures
        ({
            let c = s.context.spec_update(JUMPING_FRAMES);
            let m = RedHatBoyStateMachine::Jumping(s).spec_transition(Event::Update);
            &&& c.position.y >= FLOOR ==> m is Running && m.spec_context() == spec_landed(
                c,
                HEIGHT as int,
            )
            &&& c.position.y < FLOOR ==> m is Jumping && m.spec_context() == c
        }),
{
}

/// Ticking `n + 1` times is ticking once, then `n` times.
pub proof fn lemma_updates_shift(m: RedHatBoyStateMachine, n: nat)
    ensures
        spec_updates(m, n + 1) == spec_updates(m.spec_transition(Event::Update), n),
    decreases n,
{
    reveal_with_fuel(spec_updates, 2);
    if n > 0 {
        lemma_updates_shift(m, (n - 1) as nat);
    }
}

/// A jump always comes down: gravity raises the vertical velocity to
/// positive within a bounded number of ticks, after which the position
/// climbs back to the floor, so some tick count lands the machine.
pub proof fn lemma_jump_eventually_lands(s: RedHatBoyState<Jumping>) -> (n: nat)
    requires
        RedHatBoyStateMachine::Jumping(s).wf(),
    ensures
        n >= 1,
        spec_updates(RedHatBoyStateMachine::Jumping(s), n) is Running,
    decreases
            (if s.context.velocity.y < 1 {
                1 - s.context.velocity.y
            } else {
                0
            }),
            FLOOR - s.context.position.y,
{
    reveal_with_fuel(spec_updates, 2);
    let m0 = RedHatBoyStateMachine::Jumping(s);
    lemma_transition_preserves_wf(m0, Event::Update);
    lemma_tri_nonneg(-s.context.velocity.y - 1);
    let m1 = m0.spec_transition(Event::Update);
    match m1 {
        RedHatBoyStateMachine::Running(_) => {
            assert(spec_updates(m0, 1) == m1);
            1
        },
        RedHatBoyStateMachine::Jumping(s1) => {
            let n1 = lemma_jump_eventually_lands(s1);
            lemma_updates_shift(m0, n1);
            n1 + 1
        },
        _ => {
            assert(false);
            0
        },
    }
}

/// Ticking a jump yields exactly one landing completion: the machine stays
/// Jumping until the tick whose physics step reaches the floor, that tick
/// lands it — Running, feet on the floor, horizontal velocity unchanged,
/// vertical velocity the (downward) one the physics step produced — and
/// once Running it stays Running under updates, so no second landing
/// completion ever occurs.
pub proof fn lemma_jump_lands_once(s: RedHatBoyState<Jumping>, n: nat)
    requires
        RedHatBoyStateMachine::Jumping(s).wf(),
    ensures
        ({
            let m = spec_updates(RedHatBoyStateMachine::Jumping(s), n);
            &&& m.wf()
            &&& m is Jumping || m is Running
            &&& m.spec_context().velocity.x == s.context.velocity.x
            &&& m is Running ==> m.spec_context().position.y == FLOOR
                && m.spec_context().velocity.y >= 0
            &&& m is Running ==> spec_updates(RedHatBoyStateMachine::Jumping(s), n + 1) is Running
        }),
    decreases n,
{
    if n > 0 {
        lemma_jump_lands_once(s, (n - 1) as nat);
        let prev = spec_updates(RedHatBoyStateMachine::Jumping(s), (n - 1) as nat);
        lemma_transition_preserves_wf(prev, Event::Update);
        if prev is Jumping {
            let c = prev.spec_context().spec_update(JUMPING_FRAMES);
            lemma_tri_nonneg(-prev.spec_context().velocity.y - 1);
            if c.position.y >= FLOOR {
                // the tick that lands is a descent: the physics step moved
                // the position from at most FLOOR up to FLOOR, so the
                // velocity it produced points down
                assert(prev.spec_context().position.y <= FLOOR);
                assert(c.velocity.y >= FLOOR - prev.spec_context().position.y);
            }
        }
    }
    let m = spec_updates(RedHatBoyStateMachine::Jumping(s), n);
    lemma_transition_preserves_wf(m, Event::Update);
}

} // verus!
