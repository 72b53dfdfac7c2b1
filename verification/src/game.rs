//! The world aggregate and the game-phase machine.
//!
//! `Walk` owns the character, the two tiling background images, the live
//! obstacles and the generation cursor.  `WalkTheDogStateMachine` wraps a
//! `Walk` in one of three phases — Ready, Walking, GameOver — and one
//! update step consumes the machine and produces the next one plus the
//! requests the host must honor (play a sound, show or hide the new-game
//! control).  The host feeds key state and the new-game signal in as plain
//! values.

use vstd::prelude::*;

use std::rc::Rc;

use rand::Rng;

use crate::character::{Event, RedHatBoy, RedHatBoyState, RedHatBoyStateMachine};
use crate::engine::{Audio, DrawCommand, Image, ImageHandle, Key, KeyState, Renderer, Sound, SpriteSheet};
use crate::geometry::{Point, Rect};
use crate::obstacle::{Obstacle, WORLD_MIN_X};
use crate::segment::{
    platform_and_stone, spec_is_segment_platform, spec_stone_barrier, stone_and_platform,
    FIRST_PLATFORM_OFFSET, HIGH_PLATFORM, INITIAL_STONE_OFFSET, LOW_PLATFORM,
    NEAR_PLATFORM_OFFSET, PLATFORM_AND_STONE_EXTENT, SECOND_STONE_OFFSET, STONE_AND_PLATFORM_EXTENT,
    STONE_MAX_HEIGHT, STONE_ON_GROUND,
};
use crate::sheet::Sheet;

verus! {

/// Obstacles are generated ahead whenever the cursor falls below this.
pub const TIMELINE_MINIMUM: i16 = 1000;

/// Gap between the generated timeline and the next segment's origin.
pub const OBSTACLE_BUFFER: i16 = 20;

/// The generation cursor never leaves this band: fresh walks start at the
/// first segment's extent, and regeneration happens just below
/// `TIMELINE_MINIMUM`.
pub const TIMELINE_MAX: i16 = TIMELINE_MINIMUM + OBSTACLE_BUFFER + STONE_AND_PLATFORM_EXTENT;

/// Errors the game surfaces.
#[derive(Clone, Copy, PartialEq, Eq, Structural, Debug)]
pub enum GameError {
    /// `initialize` was called on an already initialized game.
    AlreadyInitialized,
}

/// A fire-and-forget playback request for the host.
#[derive(Clone, Copy, PartialEq, Eq, Structural, Debug)]
pub struct PlayRequest {
    pub audio: Audio,
    pub sound: Sound,
}

/// What one update step asks of the host: best-effort sound playback and
/// the one-shot new-game control.
#[derive(Clone, Copy, PartialEq, Eq, Structural, Debug)]
pub struct HostRequests {
    pub play: Option<PlayRequest>,
    pub show_new_game_control: bool,
    pub hide_control: bool,
}

impl HostRequests {
    /// The step asked nothing of the host.
    pub open spec fn spec_none() -> HostRequests {
        HostRequests { play: None, show_new_game_control: false, hide_control: false }
    }

    pub fn none() -> (r: HostRequests)
        ensures
            r == HostRequests::spec_none(),
    {
        HostRequests { play: None, show_new_game_control: false, hide_control: false }
    }
}

/// The obstacles that survive a cull pass, in order: exactly those whose
/// rightmost extent is still right of the origin.
pub open spec fn spec_live_obstacles(obstacles: Seq<Obstacle>) -> Seq<Obstacle> {
    obstacles.filter(|o: Obstacle| o.spec_right() > 0)
}

proof fn lemma_filtered_obstacle_from(obstacles: Seq<Obstacle>, o: Obstacle)
    requires
        spec_live_obstacles(obstacles).contains(o),
    ensures
        obstacles.contains(o),
        o.spec_right() > 0,
    decreases obstacles.len(),
{
    reveal(Seq::filter);
    let pred = |x: Obstacle| x.spec_right() > 0;
    obstacles.filter_lemma(pred);
    let rest = obstacles.drop_last().filter(pred);
    if obstacles.len() > 0 {
        let f = obstacles.filter(pred);
        let j = choose|j: int| 0 <= j < f.len() && f[j] == o;
        if pred(obstacles.last()) && j == f.len() - 1 {
            assert(obstacles[obstacles.len() - 1] == o);
        } else {
            assert(rest[j] == o);
            lemma_filtered_obstacle_from(obstacles.drop_last(), o);
            let i = choose|i: int|
                0 <= i < obstacles.drop_last().len() && obstacles.drop_last()[i] == o;
            assert(obstacles[i] == o);
        }
    }
}

/// Culling keeps exactly the obstacles with `right() > 0`: one whose right
/// edge reaches 0 — the boundary is inclusive on the removal side — leaves
/// the set on the pass that observes it.
pub proof fn lemma_cull_keeps_exactly_positive(obstacles: Seq<Obstacle>, o: Obstacle)
    ensures
        spec_live_obstacles(obstacles).contains(o) <==> obstacles.contains(o) && o.spec_right()
            > 0,
{
    let pred = |x: Obstacle| x.spec_right() > 0;
    if obstacles.contains(o) && o.spec_right() > 0 {
        let i = choose|i: int| 0 <= i < obstacles.len() && obstacles[i] == o;
        obstacles.lemma_filter_contains(pred, i);
    }
    if spec_live_obstacles(obstacles).contains(o) {
        lemma_filtered_obstacle_from(obstacles, o);
    }
}

/// The character machine after checking it against each obstacle in order:
/// every overlap feeds its `Land` or `KnockOut` event into the machine.
pub open spec fn spec_boy_after_collisions(
    boy: RedHatBoy,
    obstacles: Seq<Obstacle>,
) -> RedHatBoyStateMachine
    decreases obstacles.len(),
{
    if obstacles.len() == 0 {
        boy.state_machine
    } else {
        let prev = RedHatBoy {
            state_machine: spec_boy_after_collisions(boy, obstacles.drop_last()),
            ..boy
        };
        match obstacles.last().spec_collision_event(prev) {
            Some(e) => prev.state_machine.spec_transition(e),
            None => prev.state_machine,
        }
    }
}

/// What one generation step appends and where it leaves the cursor: one of
/// the two layouts, instantiated at `offset`.
pub open spec fn spec_is_generated_tail(
    tail: Seq<Obstacle>,
    stone: ImageHandle,
    sheet: Rc<SpriteSheet>,
    offset: int,
    new_timeline: int,
) -> bool {
    ||| {
        &&& tail.len() == 2
        &&& tail[0] == spec_stone_barrier(stone, offset + INITIAL_STONE_OFFSET, STONE_ON_GROUND as int)
        &&& spec_is_segment_platform(
            tail[1],
            sheet,
            Point { x: (offset + FIRST_PLATFORM_OFFSET) as i16, y: LOW_PLATFORM },
        )
        &&& new_timeline == offset + STONE_AND_PLATFORM_EXTENT
    }
    ||| {
        &&& tail.len() == 2
        &&& tail[0] == spec_stone_barrier(stone, offset + SECOND_STONE_OFFSET, STONE_ON_GROUND as int)
        &&& spec_is_segment_platform(
            tail[1],
            sheet,
            Point { x: (offset + NEAR_PLATFORM_OFFSET) as i16, y: HIGH_PLATFORM },
        )
        &&& new_timeline == offset + PLATFORM_AND_STONE_EXTENT
    }
}

/// The two background tiles form a seamless horizontally tiling pair: same
/// art, one exactly one width after the other, the left one never far left
/// of the wrap point.
pub open spec fn spec_backgrounds_ok(bgs: (Image, Image)) -> bool {
    let w = bgs.0.element.width as int;
    &&& bgs.1.element == bgs.0.element
    &&& 16 <= w <= 2000
    &&& bgs.0.bounding_box.width == w
    &&& bgs.1.bounding_box.width == w
    &&& {
        ||| bgs.1.bounding_box.position.x == bgs.0.bounding_box.position.x + w
        ||| bgs.0.bounding_box.position.x == bgs.1.bounding_box.position.x + w
    }
    &&& -w - 6 <= spec_bg_min_x(bgs) <= 0
}

/// The left tile's position.
pub open spec fn spec_bg_min_x(bgs: (Image, Image)) -> int {
    if bgs.0.bounding_box.position.x <= bgs.1.bounding_box.position.x {
        bgs.0.bounding_box.position.x as int
    } else {
        bgs.1.bounding_box.position.x as int
    }
}

/// The world: the character, the tiling backgrounds, the live obstacles,
/// the shared obstacle art and the generation cursor.
pub struct Walk {
    pub boy: RedHatBoy,
    pub backgrounds: (Image, Image),
    pub obstacles: Vec<Obstacle>,
    pub obstacle_sheet: Rc<SpriteSheet>,
    pub stone: ImageHandle,
    pub timeline: i16,
}

impl Walk {
    /// Everything the walk owns is inside its operating envelope.
    pub open spec fn wf(self) -> bool {
        &&& self.boy.wf()
        &&& forall|i: int| 0 <= i < self.obstacles@.len() ==> (#[trigger] self.obstacles@[i]).wf()
        &&& self.obstacle_sheet.sheet.spec_bounded()
        &&& 0 <= self.stone.width <= 2000
        &&& 0 <= self.stone.height <= STONE_MAX_HEIGHT
        &&& 0 <= self.timeline <= TIMELINE_MAX
        &&& spec_backgrounds_ok(self.backgrounds)
    }

    /// Every obstacle has room to scroll one tick further left.
    pub open spec fn spec_scroll_room(self) -> bool {
        forall|i: int|
            0 <= i < self.obstacles@.len() ==> (#[trigger] self.obstacles@[i]).spec_can_shift(
                -3,
            )
    }

    /// Whether every obstacle has room for one more scroll step; hosts
    /// check this before another walking update, since scrolling forever
    /// would eventually push a never-culled barrier out of the world band.
    pub fn has_scroll_room(&self) -> (r: bool)
        ensures
            r == self.spec_scroll_room(),
    {
        let n = self.obstacles.len();
        let mut i: usize = 0;
        while i < n
            invariant
                0 <= i <= n,
                n == self.obstacles@.len(),
                forall|k: int|
                    0 <= k < i ==> (#[trigger] self.obstacles@[k]).spec_can_shift(-3),
            decreases n - i,
        {
            if !self.obstacles[i].can_shift_by(-3) {
                return false;
            }
            i = i + 1;
        }
        true
    }

    /// The scroll velocity for parallax: the negative of the character's
    /// walking speed.
    pub fn velocity(&self) -> (r: i16)
        requires
            self.wf(),
        ensures
            r == -self.boy.state_machine.spec_context().velocity.x,
            -3 <= r <= 0,
    {
        -self.boy.walking_speed()
    }

    pub fn knocked_out(&self) -> (r: bool)
        ensures
            r == (self.boy.state_machine is KnockOut),
    {
        self.boy.knocked_out()
    }

    /// Append the segment `choice` picks, at the cursor plus the buffer
    /// gap, and advance the cursor to the new segment's rightmost extent.
    pub fn generate_segment(&mut self, choice: u32)
        requires
            old(self).wf(),
            old(self).timeline < TIMELINE_MINIMUM,
            choice < 2,
        ensures
            final(self).wf(),
            final(self).boy == old(self).boy,
            final(self).backgrounds == old(self).backgrounds,
            final(self).obstacle_sheet == old(self).obstacle_sheet,
            final(self).stone == old(self).stone,
            final(self).obstacles@.len() == old(self).obstacles@.len() + 2,
            final(self).obstacles@.take(old(self).obstacles@.len() as int) == old(
                self,
            ).obstacles@,
            spec_is_generated_tail(
                final(self).obstacles@.skip(old(self).obstacles@.len() as int),
                old(self).stone,
                old(self).obstacle_sheet,
                old(self).timeline + OBSTACLE_BUFFER,
                final(self).timeline as int,
            ),
    {
        let offset = self.timeline + OBSTACLE_BUFFER;
        let mut next_obstacles = if choice == 0 {
            stone_and_platform(self.stone, self.obstacle_sheet.clone(), offset)
        } else {
            platform_and_stone(self.stone, self.obstacle_sheet.clone(), offset)
        };
        self.timeline = crate::obstacle::rightmost(&next_obstacles);
        let ghost pre = self.obstacles@;
        let ghost tail = next_obstacles@;
        self.obstacles.append(&mut next_obstacles);
        proof {
            assert(self.obstacles@.take(pre.len() as int) =~= pre);
            assert(self.obstacles@.skip(pre.len() as int) =~= tail);
        }
    }

    /// Draw a uniform random choice between the two layouts and append it;
    /// see `generate_segment` for what each choice appends.
    pub fn generate_next_segment(&mut self)
        requires
            old(self).wf(),
            old(self).timeline < TIMELINE_MINIMUM,
        ensures
            final(self).wf(),
            final(self).boy == old(self).boy,
            final(self).backgrounds == old(self).backgrounds,
            final(self).obstacle_sheet == old(self).obstacle_sheet,
            final(self).stone == old(self).stone,
            final(self).obstacles@.len() == old(self).obstacles@.len() + 2,
            final(self).obstacles@.take(old(self).obstacles@.len() as int) == old(
                self,
            ).obstacles@,
            spec_is_generated_tail(
                final(self).obstacles@.skip(old(self).obstacles@.len() as int),
                old(self).stone,
                old(self).obstacle_sheet,
                old(self).timeline + OBSTACLE_BUFFER,
                final(self).timeline as int,
            ),
    {
        let next_segment = random_segment_choice();
        self.generate_segment(next_segment);
    }

    /// Tear the walk down for a new game: a fresh character and the fixed
    /// starting segment, with all loaded assets and audio handles reused.
    pub fn reset(walk: Walk) -> (r: Walk)
        requires
            walk.wf(),
        ensures
            r.wf(),
            r.boy.state_machine == RedHatBoyStateMachine::Idle(
                RedHatBoyState::<crate::character::Idle>::spec_initial(
                    walk.boy.state_machine.spec_context().audio,
                    walk.boy.state_machine.spec_context().jump_sound,
                ),
            ),
            r.boy.sprite_sheet == walk.boy.sprite_sheet,
            r.boy.image == walk.boy.image,
            r.backgrounds == walk.backgrounds,
            r.obstacle_sheet == walk.obstacle_sheet,
            r.stone == walk.stone,
            r.obstacles@.len() == 2,
            r.obstacles@[0] == spec_stone_barrier(
                walk.stone,
                INITIAL_STONE_OFFSET as int,
                STONE_ON_GROUND as int,
            ),
            spec_is_segment_platform(
                r.obstacles@[1],
                walk.obstacle_sheet,
                Point { x: FIRST_PLATFORM_OFFSET, y: LOW_PLATFORM },
            ),
            r.timeline == STONE_AND_PLATFORM_EXTENT,
    {
        let starting_obstacles = stone_and_platform(walk.stone, walk.obstacle_sheet.clone(), 0);
        let timeline = crate::obstacle::rightmost(&starting_obstacles);
        Walk {
            boy: RedHatBoy::reset(walk.boy),
            backgrounds: walk.backgrounds,
            obstacle_sheet: walk.obstacle_sheet,
            obstacles: starting_obstacles,
            stone: walk.stone,
            timeline,
        }
    }

    /// The three commands every frame of the walk starts with: both
    /// background tiles, then the character's current sprite.
    pub open spec fn spec_draw_lead_commands(self) -> Seq<DrawCommand> {
        seq![
            DrawCommand::EntireImage {
                image: self.backgrounds.0.element,
                position: self.backgrounds.0.bounding_box.position,
            },
            DrawCommand::EntireImage {
                image: self.backgrounds.1.element,
                position: self.backgrounds.1.bounding_box.position,
            },
            DrawCommand::Image {
                image: self.boy.image,
                source: Rect {
                    position: Point {
                        x: self.boy.spec_current_cell().frame.x,
                        y: self.boy.spec_current_cell().frame.y,
                    },
                    width: self.boy.spec_current_cell().frame.w,
                    height: self.boy.spec_current_cell().frame.h,
                },
                destination: self.boy.spec_destination_box(),
            },
        ]
    }

    /// Emit this frame's draw commands: backgrounds first, then the
    /// character, then the obstacles, which therefore occlude it.
    pub fn draw(&self, renderer: &mut Renderer)
        requires
            self.wf(),
        ensures
            (old(renderer).commands@ + self.spec_draw_lead_commands()).is_prefix_of(
                final(renderer).commands@,
            ),
    {
        self.backgrounds.0.draw(renderer);
        self.backgrounds.1.draw(renderer);
        self.boy.draw(renderer);
        let n = self.obstacles.len();
        let mut i: usize = 0;
        let ghost at_start = renderer.commands@;
        proof {
            assert(at_start =~= old(renderer).commands@ + self.spec_draw_lead_commands());
        }
        while i < n
            invariant
                0 <= i <= n,
                n == self.obstacles@.len(),
                self.wf(),
                at_start.is_prefix_of(renderer.commands@),
                at_start == old(renderer).commands@ + self.spec_draw_lead_commands(),
            decreases n - i,
        {
            self.obstacles[i].draw(renderer);
            i = i + 1;
        }
        proof {
            assert(at_start =~= renderer.commands@.subrange(0, at_start.len() as int));
        }
    }
}

/// Relies on `rand::Rng::gen_range` on `rand::thread_rng`: a uniform draw
/// from `0..2`, so the result always lies inside that range.
#[verifier::external_body]
fn random_segment_choice() -> (r: u32)
    ensures
        r < 2,
{
    let mut rng = rand::thread_rng();
    rng.gen_range(0..2)
}

/// Whatever holds of every obstacle of a sequence holds of every obstacle
/// that survives its cull pass.
proof fn lemma_live_obstacles_inherit(obstacles: Seq<Obstacle>, p: spec_fn(Obstacle) -> bool)
    requires
        forall|i: int| 0 <= i < obstacles.len() ==> p(#[trigger] obstacles[i]),
    ensures
        forall|i: int|
            0 <= i < spec_live_obstacles(obstacles).len() ==> p(
                #[trigger] spec_live_obstacles(obstacles)[i],
            ),
{
    let kept = spec_live_obstacles(obstacles);
    assert forall|i: int| 0 <= i < kept.len() implies p(kept[i]) by {
        assert(kept.contains(kept[i]));
        lemma_filtered_obstacle_from(obstacles, kept[i]);
        let j = choose|j: int| 0 <= j < obstacles.len() && obstacles[j] == kept[i];
        assert(p(obstacles[j]));
    }
}

/// The cull pass: keep, in order, exactly the obstacles whose rightmost
/// extent is still right of the origin.
fn cull_obstacles(obstacles: Vec<Obstacle>) -> (r: Vec<Obstacle>)
    requires
        forall|i: int| 0 <= i < obstacles@.len() ==> (#[trigger] obstacles@[i]).wf(),
    ensures
        r@ == spec_live_obstacles(obstacles@),
{
    let ghost orig = obstacles@;
    let mut rest = obstacles;
    let mut r: Vec<Obstacle> = Vec::new();
    let n = rest.len();
    let mut i: usize = 0;
    proof {
        reveal(Seq::filter);
        assert(orig.take(0) =~= Seq::<Obstacle>::empty());
        assert(orig.skip(0) =~= orig);
    }
    while i < n
        invariant
            0 <= i <= n,
            n == orig.len(),
            rest@ == orig.skip(i as int),
            r@ == spec_live_obstacles(orig.take(i as int)),
            forall|k: int| 0 <= k < n ==> (#[trigger] orig[k]).wf(),
        decreases n - i,
    {
        proof {
            reveal(Seq::filter);
            assert(orig.take(i + 1).drop_last() =~= orig.take(i as int));
            assert(orig.take(i + 1).last() == orig[i as int]);
            assert(orig.skip(i as int)[0] == orig[i as int]);
        }
        let o = rest.remove(0);
        proof {
            assert(rest@ =~= orig.skip(i + 1));
        }
        let keep = o.right();
        if keep > 0 {
            r.push(o);
        }
        i = i + 1;
    }
    proof {
        assert(orig.take(n as int) =~= orig);
    }
    r
}

/// `img` moved horizontally by `dx`.
pub open spec fn spec_moved_image(img: Image, dx: int) -> Image {
    Image {
        bounding_box: Rect {
            position: Point {
                x: (img.bounding_box.position.x + dx) as i16,
                y: img.bounding_box.position.y,
            },
            ..img.bounding_box
        },
        ..img
    }
}

/// `img` repositioned at `x`.
pub open spec fn spec_image_at(img: Image, x: int) -> Image {
    Image {
        bounding_box: Rect {
            position: Point { x: x as i16, y: img.bounding_box.position.y },
            ..img.bounding_box
        },
        ..img
    }
}

/// One scroll step of the background pair: both tiles move by `v`; a tile
/// whose right edge has passed the origin is repositioned immediately after
/// the other one, keeping the pair an endless horizontal tiling.
pub open spec fn spec_scrolled_backgrounds(bgs: (Image, Image), v: int) -> (Image, Image) {
    let m0 = spec_moved_image(bgs.0, v);
    let m1 = spec_moved_image(bgs.1, v);
    let w0 = if m0.bounding_box.spec_right() < 0 {
        spec_image_at(m0, m1.bounding_box.spec_right())
    } else {
        m0
    };
    let w1 = if m1.bounding_box.spec_right() < 0 {
        spec_image_at(m1, w0.bounding_box.spec_right())
    } else {
        m1
    };
    (w0, w1)
}

/// Scroll the background pair and wrap whichever tile has left the screen.
fn scroll_backgrounds(bgs: &mut (Image, Image), velocity: i16)
    requires
        spec_backgrounds_ok(*old(bgs)),
        -3 <= velocity <= 0,
    ensures
        spec_backgrounds_ok(*final(bgs)),
        *final(bgs) == spec_scrolled_backgrounds(*old(bgs), velocity as int),
{
    bgs.0.move_horizontally(velocity);
    bgs.1.move_horizontally(velocity);
    if bgs.0.right() < 0 {
        let x = bgs.1.right();
        bgs.0.set_x(x);
    }
    if bgs.1.right() < 0 {
        let x = bgs.0.right();
        bgs.1.set_x(x);
    }
}

/// Phase tags.
#[derive(Clone, Copy, PartialEq, Eq, Structural, Debug)]
pub struct Ready;

#[derive(Clone, Copy, PartialEq, Eq, Structural, Debug)]
pub struct Walking;

#[derive(Clone, Copy, PartialEq, Eq, Structural, Debug)]
pub struct GameOver;

/// A phase wrapping the evolving world.
pub struct WalkTheDogState<T> {
    pub _state: T,
    pub walk: Walk,
}

impl<T> WalkTheDogState<T> {
    pub fn draw(&self, renderer: &mut Renderer)
        requires
            self.walk.wf(),
        ensures
            (old(renderer).commands@ + self.walk.spec_draw_lead_commands()).is_prefix_of(
                final(renderer).commands@,
            ),
    {
        self.walk.draw(renderer);
    }
}

/// The game-phase machine: exactly one live phase, transitions consume and
/// reconstruct.
pub enum WalkTheDogStateMachine {
    Ready(WalkTheDogState<Ready>),
    Walking(WalkTheDogState<Walking>),
    GameOver(WalkTheDogState<GameOver>),
}

/// `r` is `walk` torn down for a new game: a fresh idle character with the
/// same audio handles and art, the fixed starting segment, the cursor at
/// its extent, and every loaded asset reused.
pub open spec fn spec_is_reset_of(r: Walk, walk: Walk) -> bool {
    &&& r.boy.state_machine == RedHatBoyStateMachine::Idle(
        RedHatBoyState::<crate::character::Idle>::spec_initial(
            walk.boy.state_machine.spec_context().audio,
            walk.boy.state_machine.spec_context().jump_sound,
        ),
    )
    &&& r.boy.sprite_sheet == walk.boy.sprite_sheet
    &&& r.boy.image == walk.boy.image
    &&& r.backgrounds == walk.backgrounds
    &&& r.obstacle_sheet == walk.obstacle_sheet
    &&& r.stone == walk.stone
    &&& r.obstacles@.len() == 2
    &&& r.obstacles@[0] == spec_stone_barrier(
        walk.stone,
        INITIAL_STONE_OFFSET as int,
        STONE_ON_GROUND as int,
    )
    &&& spec_is_segment_platform(
        r.obstacles@[1],
        walk.obstacle_sheet,
        Point { x: FIRST_PLATFORM_OFFSET, y: LOW_PLATFORM },
    )
    &&& r.timeline == STONE_AND_PLATFORM_EXTENT
}

/// One Ready step: the character ticks in place; the first right-arrow
/// press issues `Run` and starts the walk.
pub open spec fn spec_ready_step(
    walk: Walk,
    keystate: KeyState,
    r: (WalkTheDogStateMachine, HostRequests),
) -> bool {
    let m1 = walk.boy.state_machine.spec_transition(Event::Update);
    let m2 = if keystate.arrow_right {
        m1.spec_transition(Event::Run)
    } else {
        m1
    };
    &&& r.1 == HostRequests::spec_none()
    &&& if keystate.arrow_right {
        r.0 is Walking
    } else {
        r.0 is Ready
    }
    &&& r.0.spec_walk() == (Walk { boy: RedHatBoy { state_machine: m2, ..walk.boy }, ..walk })
}

/// One Walking step: a held space bar issues `Jump` (requesting the jump
/// sound exactly when the character was running); the character ticks; the
/// world scrolls by the negative walking speed — backgrounds wrap, culled
/// obstacles leave, survivors move and run their collision protocol in
/// order — the generator keeps the cursor ahead of the minimum look-ahead,
/// and a knocked-out character ends the game, requesting the new-game
/// control.
pub open spec fn spec_walking_step(
    walk: Walk,
    keystate: KeyState,
    r: (WalkTheDogStateMachine, HostRequests),
) -> bool {
    let m0 = walk.boy.state_machine;
    let m1 = if keystate.space {
        m0.spec_transition(Event::Jump)
    } else {
        m0
    };
    let m2 = m1.spec_transition(Event::Update);
    let v = -m2.spec_context().velocity.x as int;
    let boy2 = RedHatBoy { state_machine: m2, ..walk.boy };
    let kept = spec_live_obstacles(walk.obstacles@);
    let nw = r.0.spec_walk();
    let generated = walk.timeline < TIMELINE_MINIMUM;
    let moved = nw.obstacles@.take(kept.len() as int);
    let m3 = spec_boy_after_collisions(boy2, moved);
    &&& nw.backgrounds == spec_scrolled_backgrounds(walk.backgrounds, v)
    &&& nw.obstacles@.len() == kept.len() + (if generated {
        2int
    } else {
        0int
    })
    &&& forall|i: int|
        0 <= i < kept.len() ==> Obstacle::spec_is_shift_of(#[trigger] moved[i], kept[i], v)
    &&& nw.boy == (RedHatBoy { state_machine: m3, ..walk.boy })
    &&& nw.obstacle_sheet == walk.obstacle_sheet
    &&& nw.stone == walk.stone
    &&& generated ==> spec_is_generated_tail(
        nw.obstacles@.skip(kept.len() as int),
        walk.stone,
        walk.obstacle_sheet,
        walk.timeline + OBSTACLE_BUFFER,
        nw.timeline as int,
    )
    &&& !generated ==> nw.timeline == walk.timeline + v
    &&& if m3 is KnockOut {
        r.0 is GameOver
    } else {
        r.0 is Walking
    }
    &&& r.1 == (HostRequests {
        play: if keystate.space && m0 is Running {
            Some(
                PlayRequest {
                    audio: m0.spec_context().audio,
                    sound: m0.spec_context().jump_sound,
                },
            )
        } else {
            None
        },
        show_new_game_control: m3 is KnockOut,
        hide_control: false,
    })
}

/// One GameOver step: an activated new-game signal tears the walk down and
/// returns to Ready, asking the host to remove the control; otherwise
/// nothing changes.
pub open spec fn spec_game_over_step(
    walk: Walk,
    new_game_pressed: bool,
    r: (WalkTheDogStateMachine, HostRequests),
) -> bool {
    if new_game_pressed {
        &&& r.0 is Ready
        &&& spec_is_reset_of(r.0.spec_walk(), walk)
        &&& r.1 == (HostRequests { play: None, show_new_game_control: false, hide_control: true })
    } else {
        &&& r.0 is GameOver
        &&& r.0.spec_walk() == walk
        &&& r.1 == HostRequests::spec_none()
    }
}

/// One step of the whole phase machine.
pub open spec fn spec_machine_step(
    m: WalkTheDogStateMachine,
    keystate: KeyState,
    new_game_pressed: bool,
    r: (WalkTheDogStateMachine, HostRequests),
) -> bool {
    match m {
        WalkTheDogStateMachine::Ready(s) => spec_ready_step(s.walk, keystate, r),
        WalkTheDogStateMachine::Walking(s) => spec_walking_step(s.walk, keystate, r),
        WalkTheDogStateMachine::GameOver(s) => spec_game_over_step(s.walk, new_game_pressed, r),
    }
}

impl WalkTheDogStateMachine {
    /// The wrapped world, whichever phase is live.
    pub open spec fn spec_walk(self) -> Walk {
        match self {
            WalkTheDogStateMachine::Ready(s) => s.walk,
            WalkTheDogStateMachine::Walking(s) => s.walk,
            WalkTheDogStateMachine::GameOver(s) => s.walk,
        }
    }

    pub open spec fn wf(self) -> bool {
        self.spec_walk().wf()
    }

    /// Only a Walking step scrolls obstacles, so only it needs scroll room.
    pub open spec fn spec_scroll_room(self) -> bool {
        self is Walking ==> self.spec_walk().spec_scroll_room()
    }

    /// A fresh game waits in Ready.
    pub fn new(walk: Walk) -> (r: WalkTheDogStateMachine)
        ensures
            r == WalkTheDogStateMachine::Ready(WalkTheDogState { _state: Ready, walk }),
    {
        WalkTheDogStateMachine::Ready(WalkTheDogState::new(walk))
    }

    /// One update step: dispatch to the live phase.
    pub fn update(self, keystate: &KeyState, new_game_pressed: bool) -> (r: (
        WalkTheDogStateMachine,
        HostRequests,
    ))
        requires
            self.wf(),
            self.spec_scroll_room(),
        ensures
            spec_machine_step(self, *keystate, new_game_pressed, r),
            r.0.wf(),
    {
        match self {
            WalkTheDogStateMachine::Ready(state) => state.update(keystate),
            WalkTheDogStateMachine::Walking(state) => state.update(keystate),
            WalkTheDogStateMachine::GameOver(state) => state.update(new_game_pressed),
        }
    }

    /// Draw the live phase's world: whatever the phase, the frame opens
    /// with the backgrounds, then the character, then the obstacles.
    pub fn draw(&self, renderer: &mut Renderer)
        requires
            self.wf(),
        ensures
            (old(renderer).commands@ + self.spec_walk().spec_draw_lead_commands()).is_prefix_of(
                final(renderer).commands@,
            ),
    {
        match self {
            WalkTheDogStateMachine::Ready(state) => state.draw(renderer),
            WalkTheDogStateMachine::Walking(state) => state.draw(renderer),
            WalkTheDogStateMachine::GameOver(state) => state.draw(renderer),
        }
    }
}

impl WalkTheDogState<Ready> {
    pub fn new(walk: Walk) -> (r: WalkTheDogState<Ready>)
        ensures
            r == (WalkTheDogState { _state: Ready, walk }),
    {
        WalkTheDogState { _state: Ready, walk }
    }

    fn update(self, keystate: &KeyState) -> (r: (WalkTheDogStateMachine, HostRequests))
        requires
            self.walk.wf(),
        ensures
            spec_ready_step(self.walk, *keystate, r),
            r.0.wf(),
    {
        let mut walk = self.walk;
        walk.boy.update();
        if keystate.is_pressed(Key::ArrowRight) {
            walk.boy.run_right();
            (
                WalkTheDogStateMachine::Walking(WalkTheDogState { _state: Walking, walk }),
                HostRequests::none(),
            )
        } else {
            (
                WalkTheDogStateMachine::Ready(WalkTheDogState { _state: Ready, walk }),
                HostRequests::none(),
            )
        }
    }
}

impl WalkTheDogState<Walking> {
    fn update(self, keystate: &KeyState) -> (r: (WalkTheDogStateMachine, HostRequests))
        requires
            self.walk.wf(),
            self.walk.spec_scroll_room(),
        ensures
            spec_walking_step(self.walk, *keystate, r),
            r.0.wf(),
    {
        let ghost walk0 = self.walk;
        let mut walk = self.walk;

        let space = keystate.is_pressed(Key::Space);
        let was_running = matches!(walk.boy.state_machine, RedHatBoyStateMachine::Running(_));
        let play = if space && was_running {
            Some(
                PlayRequest {
                    audio: walk.boy.state_machine.context().audio,
                    sound: walk.boy.state_machine.context().jump_sound,
                },
            )
        } else {
            None
        };
        if space {
            walk.boy.jump();
        }
        walk.boy.update();

        let velocity = walk.velocity();
        scroll_backgrounds(&mut walk.backgrounds, velocity);

        let obstacles = walk.obstacles;
        walk.obstacles = cull_obstacles(obstacles);
        proof {
            lemma_live_obstacles_inherit(walk0.obstacles@, |o: Obstacle| o.wf());
            lemma_live_obstacles_inherit(walk0.obstacles@, |o: Obstacle| o.spec_can_shift(-3));
        }

        let ghost boy2 = walk.boy;
        let ghost kept_seq = walk.obstacles@;
        let n = walk.obstacles.len();
        let mut i: usize = 0;
        proof {
            assert(walk.obstacles@.take(0) =~= Seq::<Obstacle>::empty());
        }
        while i < n
            invariant
                0 <= i <= n,
                n == walk.obstacles@.len(),
                n == kept_seq.len(),
                -3 <= velocity <= 0,
                forall|k: int| i <= k < n ==> walk.obstacles@[k] == kept_seq[k],
                forall|k: int|
                    0 <= k < i ==> Obstacle::spec_is_shift_of(
                        #[trigger] walk.obstacles@[k],
                        kept_seq[k],
                        velocity as int,
                    ),
                forall|k: int|
                    0 <= k < n ==> (#[trigger] kept_seq[k]).wf() && kept_seq[k].spec_can_shift(-3),
                forall|k: int| 0 <= k < n ==> (#[trigger] walk.obstacles@[k]).wf(),
                walk.boy.wf(),
                walk.boy.sprite_sheet == boy2.sprite_sheet,
                walk.boy.image == boy2.image,
                walk.boy.state_machine == spec_boy_after_collisions(
                    boy2,
                    walk.obstacles@.take(i as int),
                ),
                walk.backgrounds == after_scroll_backgrounds_of(walk0, *keystate),
                walk.timeline == walk0.timeline,
                walk.stone == walk0.stone,
                walk.obstacle_sheet == walk0.obstacle_sheet,
            decreases n - i,
        {
            let ghost pre_obstacles = walk.obstacles@;
            proof {
                // room to shift a full tick leftwards gives room for any
                // smaller scroll step
                let ko = walk.obstacles@[i as int];
                assert(ko == kept_seq[i as int]);
                assert(kept_seq[i as int].wf());
                assert(ko.spec_can_shift(-3) && ko.wf());
                match ko {
                    Obstacle::Platform(p) => {
                        assert forall|k: int| 0 <= k < p.bounding_boxes@.len() implies WORLD_MIN_X
                            <= (#[trigger] p.bounding_boxes@[k]).position.x + velocity
                            <= crate::obstacle::WORLD_MAX_X by {
                            assert(WORLD_MIN_X <= p.bounding_boxes@[k].position.x + (-3));
                            assert(p.bounding_boxes@[k].wf_box());
                        }
                    },
                    Obstacle::Barrier(_) => {},
                }
                assert(ko.spec_can_shift(velocity as int));
            }
            let o = &mut walk.obstacles[i];
            o.move_horizontally(velocity);
            let o2 = &walk.obstacles[i];
            o2.check_intersection(&mut walk.boy);
            proof {
                assert(walk.obstacles@.take(i + 1).drop_last() =~= walk.obstacles@.take(i as int));
                assert(walk.obstacles@.take(i as int) =~= pre_obstacles.take(i as int));
                assert(walk.obstacles@.take(i + 1).last() == walk.obstacles@[i as int]);
            }
            i = i + 1;
        }
        proof {
            assert(walk.obstacles@.take(n as int) =~= walk.obstacles@);
        }

        if walk.timeline < TIMELINE_MINIMUM {
            walk.generate_next_segment();
        } else {
            walk.timeline = walk.timeline + velocity;
        }

        if walk.knocked_out() {
            (
                WalkTheDogStateMachine::GameOver(WalkTheDogState { _state: GameOver, walk }),
                HostRequests { play, show_new_game_control: true, hide_control: false },
            )
        } else {
            (
                WalkTheDogStateMachine::Walking(WalkTheDogState { _state: Walking, walk }),
                HostRequests { play, show_new_game_control: false, hide_control: false },
            )
        }
    }
}

/// The background pair of a walking step, after scrolling and wrapping.
pub open spec fn after_scroll_backgrounds_of(walk: Walk, keystate: KeyState) -> (Image, Image) {
    let m0 = walk.boy.state_machine;
    let m1 = if keystate.space {
        m0.spec_transition(Event::Jump)
    } else {
        m0
    };
    let m2 = m1.spec_transition(Event::Update);
    spec_scrolled_backgrounds(walk.backgrounds, -m2.spec_context().velocity.x as int)
}

impl WalkTheDogState<GameOver> {
    fn update(self, new_game_pressed: bool) -> (r: (WalkTheDogStateMachine, HostRequests))
        requires
            self.walk.wf(),
        ensures
            spec_game_over_step(self.walk, new_game_pressed, r),
            r.0.wf(),
    {
        if new_game_pressed {
            (
                WalkTheDogStateMachine::Ready(self.new_game()),
                HostRequests { play: None, show_new_game_control: false, hide_control: true },
            )
        } else {
            (WalkTheDogStateMachine::GameOver(self), HostRequests::none())
        }
    }

    /// Tear the world down and wait for the first input again.
    fn new_game(self) -> (r: WalkTheDogState<Ready>)
        requires
            self.walk.wf(),
        ensures
            r.walk.wf(),
            spec_is_reset_of(r.walk, self.walk),
            r._state == Ready,
    {
        WalkTheDogState { _state: Ready, walk: Walk::reset(self.walk) }
    }
}

/// The game as the host drives it: `None` until `initialize` has built the
/// first world from the loaded assets.
pub struct WalkTheDog {
    pub machine: Option<WalkTheDogStateMachine>,
}

impl WalkTheDog {
    pub open spec fn wf(self) -> bool {
        match self.machine {
            Some(m) => m.wf(),
            None => true,
        }
    }

    pub open spec fn spec_scroll_room(self) -> bool {
        match self.machine {
            Some(m) => m.spec_scroll_room(),
            None => true,
        }
    }

    pub fn new() -> (r: WalkTheDog)
        ensures
            r.machine is None,
    {
        WalkTheDog { machine: None }
    }

    /// Build the first world from the host's loaded assets: the character
    /// over its sheet, two background tiles side by side, the fixed
    /// starting segment and the cursor at its extent.  Fails exactly when
    /// the game is already initialized.
    pub fn initialize(
        &self,
        boy_sheet: Sheet,
        boy_image: ImageHandle,
        audio: Audio,
        jump_sound: Sound,
        background: ImageHandle,
        stone: ImageHandle,
        tiles: Sheet,
        tiles_image: ImageHandle,
    ) -> (r: Result<WalkTheDog, GameError>)
        requires
            boy_sheet.spec_bounded(),
            crate::character::spec_boy_sheet_complete(boy_sheet),
            16 <= background.width <= 2000,
            0 <= stone.width <= 2000,
            0 <= stone.height <= STONE_MAX_HEIGHT,
            tiles.spec_bounded(),
        ensures
            self.machine is Some <==> r == Err::<WalkTheDog, GameError>(
                GameError::AlreadyInitialized,
            ),
            self.machine is None ==> (r matches Ok(g) && {
                &&& g.wf()
                &&& g.machine matches Some(m) && m is Ready && {
                    let walk = m.spec_walk();
                    &&& walk.boy.state_machine == RedHatBoyStateMachine::Idle(
                        RedHatBoyState::<crate::character::Idle>::spec_initial(audio, jump_sound),
                    )
                    &&& walk.boy.sprite_sheet == boy_sheet
                    &&& walk.boy.image == boy_image
                    &&& walk.backgrounds.0 == (Image {
                        element: background,
                        bounding_box: Rect {
                            position: Point { x: 0, y: 0 },
                            width: background.width,
                            height: background.height,
                        },
                    })
                    &&& walk.backgrounds.1 == (Image {
                        element: background,
                        bounding_box: Rect {
                            position: Point { x: background.width, y: 0 },
                            width: background.width,
                            height: background.height,
                        },
                    })
                    &&& walk.obstacle_sheet.sheet == tiles
                    &&& walk.obstacle_sheet.image == tiles_image
                    &&& walk.stone == stone
                    &&& walk.obstacles@.len() == 2
                    &&& walk.obstacles@[0] == spec_stone_barrier(
                        stone,
                        INITIAL_STONE_OFFSET as int,
                        STONE_ON_GROUND as int,
                    )
                    &&& spec_is_segment_platform(
                        walk.obstacles@[1],
                        walk.obstacle_sheet,
                        Point { x: FIRST_PLATFORM_OFFSET, y: LOW_PLATFORM },
                    )
                    &&& walk.timeline == STONE_AND_PLATFORM_EXTENT
                }
            }),
    {
        if self.machine.is_some() {
            return Err(GameError::AlreadyInitialized);
        }
        let rhb = RedHatBoy::new(boy_sheet, boy_image, audio, jump_sound);
        let sprite_sheet = Rc::new(SpriteSheet::new(tiles, tiles_image));
        let background_width = background.width;
        let starting_obstacles = stone_and_platform(stone, sprite_sheet.clone(), 0);
        let timeline = crate::obstacle::rightmost(&starting_obstacles);
        let machine = WalkTheDogStateMachine::new(
            Walk {
                boy: rhb,
                backgrounds: (
                    Image::new(background, Point { x: 0, y: 0 }),
                    Image::new(background, Point { x: background_width, y: 0 }),
                ),
                obstacles: starting_obstacles,
                obstacle_sheet: sprite_sheet,
                stone,
                timeline,
            },
        );
        Ok(WalkTheDog { machine: Some(machine) })
    }

    /// Whether the next update has scroll room; see `Walk::has_scroll_room`.
    /// Only the Walking phase scrolls, so the other phases always do.
    pub fn has_scroll_room(&self) -> (r: bool)
        ensures
            r == self.spec_scroll_room(),
    {
        match &self.machine {
            Some(WalkTheDogStateMachine::Walking(state)) => state.walk.has_scroll_room(),
            _ => true,
        }
    }

    /// Advance the live phase one fixed step with the given input and
    /// new-game signal; before initialization this is a no-op.
    pub fn update(&mut self, keystate: &KeyState, new_game_pressed: bool) -> (r: HostRequests)
        requires
            old(self).wf(),
            old(self).spec_scroll_room(),
        ensures
            final(self).wf(),
            match old(self).machine {
                Some(m) => final(self).machine matches Some(m2) && spec_machine_step(
                    m,
                    *keystate,
                    new_game_pressed,
                    (m2, r),
                ),
                None => final(self).machine is None && r == HostRequests::spec_none(),
            },
    {
        let machine = self.machine.take();
        match machine {
            Some(m) => {
                let (m2, requests) = m.update(keystate, new_game_pressed);
                self.machine = Some(m2);
                requests
            },
            None => HostRequests::none(),
        }
    }

    /// Emit this frame's draw commands: clear the canvas, then draw the
    /// live phase's world, which opens with the backgrounds, the character
    /// and the obstacles in that order.
    pub fn draw(&self, renderer: &mut Renderer)
        requires
            self.wf(),
        ensures
            old(renderer).commands@.push(
                DrawCommand::Clear(
                    Rect {
                        position: Point { x: 0, y: 0 },
                        width: crate::engine::HEIGHT,
                        height: crate::engine::HEIGHT,
                    },
                ),
            ).is_prefix_of(final(renderer).commands@),
            self.machine matches Some(m) ==> (old(renderer).commands@.push(
                DrawCommand::Clear(
                    Rect {
                        position: Point { x: 0, y: 0 },
                        width: crate::engine::HEIGHT,
                        height: crate::engine::HEIGHT,
                    },
                ),
            ) + m.spec_walk().spec_draw_lead_commands()).is_prefix_of(
                final(renderer).commands@,
            ),
    {
        renderer.clear(
            &Rect::new(Point { x: 0, y: 0 }, crate::engine::HEIGHT, crate::engine::HEIGHT),
        );
        let ghost cleared = renderer.commands@;
        match &self.machine {
            Some(machine) => {
                machine.draw(renderer);
            },
            None => {},
        }
        proof {
            assert(cleared =~= renderer.commands@.subrange(0, cleared.len() as int));
        }
    }
}

} // verus!
