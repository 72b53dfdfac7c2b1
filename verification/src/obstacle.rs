//! Obstacles: platform tiles the character can land on and single-image
//! barriers that knock it out.
//!
//! Each obstacle exposes its rightmost extent (for culling and for placing
//! freshly generated segments), a horizontal shift (the world scrolls, the
//! character does not), a draw-command emitter and the collision protocol:
//! checking an obstacle against the character feeds `Land` or `KnockOut`
//! events back into the character machine and never mutates the obstacle.

use vstd::prelude::*;

use std::rc::Rc;

use crate::character::{Event, RedHatBoy};
use crate::engine::{Image, Renderer, SpriteSheet, HEIGHT};
use crate::geometry::{Point, Rect};
use crate::sheet::{spec_cell_bounded, Cell, FrameLabel, Sheet, SpriteKey};

verus! {

/// What `Barrier::right` reports: a fixed nominal extent rather than the
/// true image extent.  A barrier therefore never satisfies the culling
/// condition `right() <= 0`; the behavior is kept as the game defines it.
pub const BARRIER_NOMINAL_RIGHT: i16 = 250;

/// A platform never carries more of the sheet's cells than this; it keeps
/// the summed sprite widths in `i16` when drawing.
pub const PLATFORM_MAX_SPRITES: usize = 8;

/// Obstacles live inside this horizontal band; together with the bounds on
/// cell sizes it keeps every coordinate computation in `i16`.
pub const WORLD_MAX_X: i16 = 24000;

pub const WORLD_MIN_X: i16 = -24000;

/// The tile cell index whose size sets a platform's destination box.
pub const PLATFORM_LEAD_TILE: u8 = 13;

/// The cells found in `sheet` under `names`, in order, skipping the names
/// the sheet does not hold.
pub open spec fn spec_found_cells(sheet: Sheet, names: Seq<SpriteKey>) -> Seq<Cell>
    decreases names.len(),
{
    if names.len() == 0 {
        Seq::empty()
    } else {
        let rest = spec_found_cells(sheet, names.drop_last());
        match sheet.spec_lookup(names.last()) {
            Some(c) => rest.push(c),
            None => rest,
        }
    }
}

/// `boxes` shifted wholesale by `position`.
pub open spec fn spec_shifted_boxes(boxes: Seq<Rect>, position: Point) -> Seq<Rect> {
    boxes.map(
        |i: int, b: Rect|
            Rect {
                position: Point {
                    x: (b.position.x + position.x) as i16,
                    y: (b.position.y + position.y) as i16,
                },
                width: b.width,
                height: b.height,
            },
    )
}

/// The first of `boxes` (in sequence order) that `bb` intersects.
pub open spec fn spec_first_hit(bb: Rect, boxes: Seq<Rect>) -> Option<Rect>
    decreases boxes.len(),
{
    if boxes.len() == 0 {
        None
    } else if bb.spec_intersects(boxes[0]) {
        Some(boxes[0])
    } else {
        spec_first_hit(bb, boxes.drop_first())
    }
}

proof fn lemma_first_hit_step(bb: Rect, boxes: Seq<Rect>, i: int)
    requires
        0 <= i < boxes.len(),
        !bb.spec_intersects(boxes[i]),
    ensures
        spec_first_hit(bb, boxes.skip(i)) == spec_first_hit(bb, boxes.skip(i + 1)),
{
    assert(boxes.skip(i)[0] == boxes[i]);
    assert(boxes.skip(i).drop_first() =~= boxes.skip(i + 1));
}

/// A platform: a read-only handle to the shared obstacle sheet, an anchor
/// position, the absolute collision boxes (the relative boxes of the layout
/// shifted by the anchor) and the sheet cells it draws.
pub struct Platform {
    pub sheet: Rc<SpriteSheet>,
    pub position: Point,
    pub bounding_boxes: Vec<Rect>,
    pub sprites: Vec<Cell>,
}

impl Platform {
    /// The collision boxes sit inside the play area's vertical band and the
    /// world's horizontal band, the sprites are bounded cells, and there are
    /// few enough of them to draw.
    pub open spec fn wf(self) -> bool {
        &&& self.sprites@.len() <= PLATFORM_MAX_SPRITES
        &&& forall|i: int|
            0 <= i < self.sprites@.len() ==> spec_cell_bounded(#[trigger] self.sprites@[i])
        &&& forall|i: int|
            0 <= i < self.bounding_boxes@.len() ==> (#[trigger] self.bounding_boxes@[i]).wf_box()
        &&& WORLD_MIN_X <= self.position.x <= WORLD_MAX_X
        &&& 0 <= self.position.y <= HEIGHT
    }

    pub fn new(
        sheet: Rc<SpriteSheet>,
        position: Point,
        sprite_names: &[SpriteKey],
        bounding_boxes: &[Rect],
    ) -> (r: Platform)
        requires
            forall|i: int|
                0 <= i < bounding_boxes@.len() ==> i16::MIN <= (
                #[trigger] bounding_boxes@[i]).position.x + position.x <= i16::MAX,
            forall|i: int|
                0 <= i < bounding_boxes@.len() ==> i16::MIN <= (
                #[trigger] bounding_boxes@[i]).position.y + position.y <= i16::MAX,
        ensures
            r.sheet == sheet,
            r.position == position,
            r.bounding_boxes@ == spec_shifted_boxes(bounding_boxes@, position),
            r.sprites@ == spec_found_cells(sheet.sheet, sprite_names@),
    {
        let mut sprites: Vec<Cell> = Vec::new();
        let mut i: usize = 0;
        assert(sprite_names@.take(0) =~= Seq::<SpriteKey>::empty());
        while i < sprite_names.len()
            invariant
                0 <= i <= sprite_names@.len(),
                sprites@ == spec_found_cells(sheet.sheet, sprite_names@.take(i as int)),
            decreases sprite_names@.len() - i,
        {
            assert(sprite_names@.take(i + 1).drop_last() =~= sprite_names@.take(i as int));
            assert(sprite_names@.take(i + 1).last() == sprite_names@[i as int]);
            if let Some(cell) = sheet.cell(sprite_names[i]) {
                sprites.push(*cell);
            }
            i = i + 1;
        }
        assert(sprite_names@.take(sprite_names@.len() as int) =~= sprite_names@);

        let mut shifted: Vec<Rect> = Vec::new();
        let mut j: usize = 0;
        while j < bounding_boxes.len()
            invariant
                0 <= j <= bounding_boxes@.len(),
                shifted@ =~= spec_shifted_boxes(bounding_boxes@, position).take(j as int),
                forall|i: int|
                    0 <= i < bounding_boxes@.len() ==> i16::MIN <= (
                    #[trigger] bounding_boxes@[i]).position.x + position.x <= i16::MAX,
                forall|i: int|
                    0 <= i < bounding_boxes@.len() ==> i16::MIN <= (
                    #[trigger] bounding_boxes@[i]).position.y + position.y <= i16::MAX,
            decreases bounding_boxes@.len() - j,
        {
            let b = &bounding_boxes[j];
            shifted.push(
                Rect::new_from_x_y(b.x() + position.x, b.y() + position.y, b.width, b.height),
            );
            j = j + 1;
        }
        assert(shifted@ =~= spec_shifted_boxes(bounding_boxes@, position));

        Platform { sheet, position, sprites, bounding_boxes: shifted }
    }

    pub fn bounding_boxes(&self) -> (r: &Vec<Rect>)
        ensures
            *r == self.bounding_boxes,
    {
        &self.bounding_boxes
    }

    /// Where the platform art goes: three lead tiles wide at the anchor.
    pub fn destination_box(&self) -> (r: Rect)
        requires
            self.sheet.sheet.spec_lookup(
                SpriteKey { label: FrameLabel::Tile, index: PLATFORM_LEAD_TILE },
            ) matches Some(c) && spec_cell_bounded(c),
        ensures
            ({
                let c = self.sheet.sheet.spec_lookup(
                    SpriteKey { label: FrameLabel::Tile, index: PLATFORM_LEAD_TILE },
                ).unwrap();
                r == (Rect {
                    position: self.position,
                    width: (c.frame.w * 3) as i16,
                    height: c.frame.h,
                })
            }),
    {
        let platform = self.sheet.cell(
            SpriteKey { label: FrameLabel::Tile, index: PLATFORM_LEAD_TILE },
        );
        match platform {
            Some(platform) => Rect::new(self.position, platform.frame.w * 3, platform.frame.h),
            None => vstd::pervasive::unreached(),
        }
    }
}

/// A barrier: one positioned image; touching it knocks the character out.
pub struct Barrier {
    pub image: Image,
}

impl Barrier {
    pub open spec fn wf(self) -> bool {
        &&& self.image.bounding_box.wf_box()
    }

    pub fn new(image: Image) -> (r: Barrier)
        ensures
            r.image == image,
    {
        Barrier { image }
    }
}

impl Rect {
    /// A collision box the world can hold: vertically inside the play area,
    /// horizontally inside the world band, with non-negative extents that
    /// keep edge computations in `i16`.
    pub open spec fn wf_box(self) -> bool {
        &&& 0 <= self.position.y
        &&& 0 <= self.height
        &&& self.spec_bottom() <= HEIGHT
        &&& WORLD_MIN_X <= self.position.x <= WORLD_MAX_X
        &&& 0 <= self.width <= 2000
    }
}

impl Platform {
    /// The rightmost extent: the right edge of the last collision box, or 0
    /// for a platform without boxes.
    pub open spec fn spec_right(self) -> int {
        if self.bounding_boxes@.len() == 0 {
            0
        } else {
            self.bounding_boxes@.last().spec_right()
        }
    }

    /// The whole platform, including every collision box, can shift by `dx`
    /// and stay inside the world band.
    pub open spec fn spec_can_shift(self, dx: int) -> bool {
        &&& WORLD_MIN_X <= self.position.x + dx <= WORLD_MAX_X
        &&& forall|i: int|
            0 <= i < self.bounding_boxes@.len() ==> WORLD_MIN_X <= (
            #[trigger] self.bounding_boxes@[i]).position.x + dx <= WORLD_MAX_X
    }

    /// The collision event this platform sends the character, if their
    /// boxes overlap: descending onto the platform from above lands on the
    /// first overlapping box, anything else is a knockout.
    pub open spec fn spec_collision_event(self, boy: RedHatBoy) -> Option<Event> {
        match spec_first_hit(boy.spec_bounding_box(), self.bounding_boxes@) {
            Some(b) => {
                let c = boy.state_machine.spec_context();
                if c.velocity.y > 0 && c.position.y < self.position.y {
                    Some(Event::Land(b.position.y))
                } else {
                    Some(Event::KnockOut)
                }
            },
            None => None,
        }
    }

    /// Run the collision protocol against the character: the first
    /// overlapping collision box (in sequence order) decides, the platform
    /// itself never changes.
    pub fn check_intersection(&self, boy: &mut RedHatBoy)
        requires
            old(boy).wf(),
            self.wf(),
        ensures
            final(boy).wf(),
            final(boy).sprite_sheet == old(boy).sprite_sheet,
            final(boy).image == old(boy).image,
            final(boy).state_machine == (match self.spec_collision_event(*old(boy)) {
                Some(e) => old(boy).state_machine.spec_transition(e),
                None => old(boy).state_machine,
            }),
    {
        proof {
            crate::character::lemma_wf_bounding_box_in_range(*boy);
        }
        let bb = boy.bounding_box();
        let n = self.bounding_boxes.len();
        let mut i: usize = 0;
        assert(self.bounding_boxes@.skip(0) =~= self.bounding_boxes@);
        while i < n
            invariant
                0 <= i <= n,
                n == self.bounding_boxes@.len(),
                self.wf(),
                boy.wf(),
                *boy == *old(boy),
                bb == old(boy).spec_bounding_box(),
                bb.edges_in_range(),
                spec_first_hit(bb, self.bounding_boxes@) == spec_first_hit(
                    bb,
                    self.bounding_boxes@.skip(i as int),
                ),
            decreases n - i,
        {
            let hit = bb.intersects(&self.bounding_boxes[i]);
            if hit {
                assert(self.bounding_boxes@.skip(i as int)[0] == self.bounding_boxes@[i as int]);
                let box_to_land_on = &self.bounding_boxes[i];
                if boy.velocity_y() > 0 && boy.pos_y() < self.position.y {
                    boy.land_on(box_to_land_on.y());
                } else {
                    boy.knock_out();
                }
                return ;
            }
            proof {
                lemma_first_hit_step(bb, self.bounding_boxes@, i as int);
            }
            i = i + 1;
        }
        assert(self.bounding_boxes@.skip(n as int) =~= Seq::<Rect>::empty());
    }

    pub fn right(&self) -> (r: i16)
        requires
            self.wf(),
        ensures
            r == self.spec_right(),
    {
        let n = self.bounding_boxes.len();
        if n == 0 {
            0
        } else {
            self.bounding_boxes[n - 1].right()
        }
    }

    /// Whether the platform can shift by `dx` and stay inside the world
    /// band.
    pub fn can_shift_by(&self, dx: i16) -> (r: bool)
        ensures
            r == self.spec_can_shift(dx as int),
    {
        let anchor = self.position.x as i32 + dx as i32;
        if !(WORLD_MIN_X as i32 <= anchor && anchor <= WORLD_MAX_X as i32) {
            return false;
        }
        let n = self.bounding_boxes.len();
        let mut i: usize = 0;
        while i < n
            invariant
                0 <= i <= n,
                n == self.bounding_boxes@.len(),
                WORLD_MIN_X <= self.position.x + dx <= WORLD_MAX_X,
                forall|k: int|
                    0 <= k < i ==> WORLD_MIN_X <= (#[trigger] self.bounding_boxes@[k]).position.x
                        + dx <= WORLD_MAX_X,
            decreases n - i,
        {
            let x = self.bounding_boxes[i].x() as i32 + dx as i32;
            if !(WORLD_MIN_X as i32 <= x && x <= WORLD_MAX_X as i32) {
                return false;
            }
            i = i + 1;
        }
        true
    }

    /// Shift the anchor and every collision box by `x`.
    pub fn move_horizontally(&mut self, x: i16)
        requires
            old(self).spec_can_shift(x as int),
            old(self).wf(),
        ensures
            final(self).wf(),
            final(self).sheet == old(self).sheet,
            final(self).sprites == old(self).sprites,
            final(self).position == (Point {
                x: (old(self).position.x + x) as i16,
                y: old(self).position.y,
            }),
            final(self).bounding_boxes@ == spec_shifted_boxes(
                old(self).bounding_boxes@,
                Point { x, y: 0 },
            ),
    {
        self.position.x = self.position.x + x;
        let n = self.bounding_boxes.len();
        let ghost orig = self.bounding_boxes@;
        let mut i: usize = 0;
        while i < n
            invariant
                0 <= i <= n,
                n == self.bounding_boxes@.len(),
                orig.len() == n,
                self.sheet == old(self).sheet,
                self.sprites == old(self).sprites,
                self.position == (Point {
                    x: (old(self).position.x + x) as i16,
                    y: old(self).position.y,
                }),
                old(self).wf(),
                WORLD_MIN_X <= self.position.x <= WORLD_MAX_X,
                forall|k: int| 0 <= k < n ==> (#[trigger] orig[k]).wf_box(),
                forall|k: int|
                    0 <= k < n ==> WORLD_MIN_X <= (#[trigger] orig[k]).position.x + x
                        <= WORLD_MAX_X,
                forall|k: int|
                    i <= k < n ==> #[trigger] self.bounding_boxes@[k] == orig[k],
                forall|k: int|
                    0 <= k < i ==> #[trigger] self.bounding_boxes@[k] == (Rect {
                        position: Point {
                            x: (orig[k].position.x + x) as i16,
                            y: orig[k].position.y,
                        },
                        width: orig[k].width,
                        height: orig[k].height,
                    }),
            decreases n - i,
        {
            let nx = self.bounding_boxes[i].x() + x;
            let b = &mut self.bounding_boxes[i];
            b.set_x(nx);
            i = i + 1;
        }
        assert(self.bounding_boxes@ =~= spec_shifted_boxes(orig, Point { x, y: 0 }));
    }

    /// Emit the draw commands for the platform's tiles, laid out left to
    /// right from the anchor.
    pub fn draw(&self, renderer: &mut Renderer)
        requires
            self.wf(),
        ensures
            old(renderer).commands@.is_prefix_of(final(renderer).commands@),
    {
        let mut x: i16 = 0;
        let mut i: usize = 0;
        let n = self.sprites.len();
        while i < n
            invariant
                0 <= i <= n,
                n == self.sprites@.len(),
                self.wf(),
                0 <= x <= 1024 * i,
                old(renderer).commands@.is_prefix_of(renderer.commands@),
            decreases n - i,
        {
            let sprite = &self.sprites[i];
            let source = Rect::new_from_x_y(
                sprite.frame.x,
                sprite.frame.y,
                sprite.frame.w,
                sprite.frame.h,
            );
            let destination = Rect::new_from_x_y(
                self.position.x + x,
                self.position.y,
                sprite.frame.w,
                sprite.frame.h,
            );
            self.sheet.draw(renderer, &source, &destination);
            x = x + sprite.frame.w;
            i = i + 1;
        }
    }
}

impl Barrier {
    /// A barrier knocks the character out on any overlap.
    pub open spec fn spec_collision_event(self, boy: RedHatBoy) -> Option<Event> {
        if boy.spec_bounding_box().spec_intersects(self.image.bounding_box) {
            Some(Event::KnockOut)
        } else {
            None
        }
    }

    pub open spec fn spec_can_shift(self, dx: int) -> bool {
        WORLD_MIN_X <= self.image.bounding_box.position.x + dx <= WORLD_MAX_X
    }

    pub fn check_intersection(&self, boy: &mut RedHatBoy)
        requires
            old(boy).wf(),
            self.wf(),
        ensures
            final(boy).wf(),
            final(boy).sprite_sheet == old(boy).sprite_sheet,
            final(boy).image == old(boy).image,
            final(boy).state_machine == (match self.spec_collision_event(*old(boy)) {
                Some(e) => old(boy).state_machine.spec_transition(e),
                None => old(boy).state_machine,
            }),
    {
        proof {
            crate::character::lemma_wf_bounding_box_in_range(*boy);
        }
        let bb = boy.bounding_box();
        if bb.intersects(self.image.bounding_box()) {
            boy.knock_out();
        }
    }

    pub fn draw(&self, renderer: &mut Renderer)
        ensures
            old(renderer).commands@.is_prefix_of(final(renderer).commands@),
    {
        self.image.draw(renderer)
    }

    pub fn move_horizontally(&mut self, x: i16)
        requires
            old(self).spec_can_shift(x as int),
            old(self).wf(),
        ensures
            final(self).wf(),
            final(self).image == (Image {
                bounding_box: Rect {
                    position: Point {
                        x: (old(self).image.bounding_box.position.x + x) as i16,
                        y: old(self).image.bounding_box.position.y,
                    },
                    ..old(self).image.bounding_box
                },
                ..old(self).image
            }),
    {
        self.image.move_horizontally(x);
    }

    /// The fixed nominal extent; see `BARRIER_NOMINAL_RIGHT`.
    pub fn right(&self) -> (r: i16)
        ensures
            r == BARRIER_NOMINAL_RIGHT,
    {
        BARRIER_NOMINAL_RIGHT
    }
}

/// A live obstacle: either a platform or a barrier.
pub enum Obstacle {
    Platform(Platform),
    Barrier(Barrier),
}

impl Obstacle {
    pub open spec fn wf(self) -> bool {
        match self {
            Obstacle::Platform(p) => p.wf(),
            Obstacle::Barrier(b) => b.wf(),
        }
    }

    pub open spec fn spec_right(self) -> int {
        match self {
            Obstacle::Platform(p) => p.spec_right(),
            Obstacle::Barrier(_) => BARRIER_NOMINAL_RIGHT as int,
        }
    }

    pub open spec fn spec_can_shift(self, dx: int) -> bool {
        match self {
            Obstacle::Platform(p) => p.spec_can_shift(dx),
            Obstacle::Barrier(b) => b.spec_can_shift(dx),
        }
    }

    pub open spec fn spec_collision_event(self, boy: RedHatBoy) -> Option<Event> {
        match self {
            Obstacle::Platform(p) => p.spec_collision_event(boy),
            Obstacle::Barrier(b) => b.spec_collision_event(boy),
        }
    }

    /// `post` is `pre` shifted horizontally by `dx`: the kind and all art
    /// are kept, the anchor and every box move by `dx`.
    pub open spec fn spec_is_shift_of(post: Obstacle, pre: Obstacle, dx: int) -> bool {
        match (pre, post) {
            (Obstacle::Platform(p0), Obstacle::Platform(p1)) => {
                &&& p1.sheet == p0.sheet
                &&& p1.sprites == p0.sprites
                &&& p1.position == (Point { x: (p0.position.x + dx) as i16, y: p0.position.y })
                &&& p1.bounding_boxes@ == spec_shifted_boxes(
                    p0.bounding_boxes@,
                    Point { x: dx as i16, y: 0 },
                )
            },
            (Obstacle::Barrier(b0), Obstacle::Barrier(b1)) => {
                b1.image == (Image {
                    bounding_box: Rect {
                        position: Point {
                            x: (b0.image.bounding_box.position.x + dx) as i16,
                            y: b0.image.bounding_box.position.y,
                        },
                        ..b0.image.bounding_box
                    },
                    ..b0.image
                })
            },
            _ => false,
        }
    }

    pub fn check_intersection(&self, boy: &mut RedHatBoy)
        requires
            old(boy).wf(),
            self.wf(),
        ensures
            final(boy).wf(),
            final(boy).sprite_sheet == old(boy).sprite_sheet,
            final(boy).image == old(boy).image,
            final(boy).state_machine == (match self.spec_collision_event(*old(boy)) {
                Some(e) => old(boy).state_machine.spec_transition(e),
                None => old(boy).state_machine,
            }),
    {
        match self {
            Obstacle::Platform(p) => p.check_intersection(boy),
            Obstacle::Barrier(b) => b.check_intersection(boy),
        }
    }

    pub fn draw(&self, renderer: &mut Renderer)
        requires
            self.wf(),
        ensures
            old(renderer).commands@.is_prefix_of(final(renderer).commands@),
    {
        match self {
            Obstacle::Platform(p) => p.draw(renderer),
            Obstacle::Barrier(b) => b.draw(renderer),
        }
    }

    pub fn move_horizontally(&mut self, x: i16)
        requires
            old(self).spec_can_shift(x as int),
            old(self).wf(),
        ensures
            final(self).wf(),
            Obstacle::spec_is_shift_of(*final(self), *old(self), x as int),
    {
        match self {
            Obstacle::Platform(p) => p.move_horizontally(x),
            Obstacle::Barrier(b) => b.move_horizontally(x),
        }
    }

    pub fn right(&self) -> (r: i16)
        requires
            self.wf(),
        ensures
            r == self.spec_right(),
    {
        match self {
            Obstacle::Platform(p) => p.right(),
            Obstacle::Barrier(b) => b.right(),
        }
    }

    /// Whether the obstacle can shift by `dx` and stay inside the world
    /// band; hosts check this before asking for another scroll step.
    pub fn can_shift_by(&self, dx: i16) -> (r: bool)
        ensures
            r == self.spec_can_shift(dx as int),
    {
        match self {
            Obstacle::Platform(p) => p.can_shift_by(dx),
            Obstacle::Barrier(b) => {
                let x = b.image.bounding_box.position.x as i32 + dx as i32;
                WORLD_MIN_X as i32 <= x && x <= WORLD_MAX_X as i32
            },
        }
    }
}

/// The rightmost extent of a group of obstacles, 0 for an empty group.
pub open spec fn spec_rightmost(list: Seq<Obstacle>) -> int
    decreases list.len(),
{
    if list.len() == 0 {
        0
    } else if list.len() == 1 {
        list[0].spec_right()
    } else {
        let rest = spec_rightmost(list.drop_last());
        let last = list.last().spec_right();
        if last > rest {
            last
        } else {
            rest
        }
    }
}

/// The rightmost extent of `obstacle_list`: the maximum of the obstacles'
/// right edges, or 0 when the list is empty.
pub fn rightmost(obstacle_list: &Vec<Obstacle>) -> (r: i16)
    requires
        forall|i: int| 0 <= i < obstacle_list@.len() ==> (#[trigger] obstacle_list@[i]).wf(),
    ensures
        r == spec_rightmost(obstacle_list@),
{
    let n = obstacle_list.len();
    if n == 0 {
        return 0;
    }
    let mut best: i16 = obstacle_list[0].right();
    let mut i: usize = 1;
    assert(obstacle_list@.take(1) =~= seq![obstacle_list@[0]]);
    while i < n
        invariant
            1 <= i <= n,
            n == obstacle_list@.len(),
            forall|k: int| 0 <= k < n ==> (#[trigger] obstacle_list@[k]).wf(),
            best == spec_rightmost(obstacle_list@.take(i as int)),
        decreases n - i,
    {
        assert(obstacle_list@.take(i + 1).drop_last() =~= obstacle_list@.take(i as int));
        assert(obstacle_list@.take(i + 1).last() == obstacle_list@[i as int]);
        let r = obstacle_list[i].right();
        if r > best {
            best = r;
        }
        i = i + 1;
    }
    assert(obstacle_list@.take(n as int) =~= obstacle_list@);
    best
}

} // verus!
