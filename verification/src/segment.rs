//! Obstacle segments: the two fixed layouts the generator chooses from.
//!
//! Each layout is instantiated at a horizontal offset and yields a stone
//! barrier on the ground plus a floating platform, in the two possible
//! orders.  The layouts' geometry is fixed; only the offset varies, so each
//! function states exactly which obstacles come back and how far the
//! segment reaches.

use vstd::prelude::*;

use std::rc::Rc;

use crate::engine::{Image, ImageHandle, SpriteSheet};
use crate::geometry::{Point, Rect};
use crate::obstacle::{
    spec_found_cells, spec_rightmost, spec_shifted_boxes, Barrier, Obstacle, Platform,
};
use crate::sheet::{FrameLabel, SpriteKey};

verus! {

/// Offsets of the two layouts' pieces from the segment's origin.
pub const INITIAL_STONE_OFFSET: i16 = 150;

pub const SECOND_STONE_OFFSET: i16 = 550;

pub const FIRST_PLATFORM_OFFSET: i16 = 400;

pub const NEAR_PLATFORM_OFFSET: i16 = 200;

/// Vertical anchor of a stone sitting on the ground.
pub const STONE_ON_GROUND: i16 = 546;

/// The tallest stone art that still sits on the ground inside the canvas.
pub const STONE_MAX_HEIGHT: i16 = 54;

/// Vertical anchors of the floating platform.
pub const LOW_PLATFORM: i16 = 420;

pub const HIGH_PLATFORM: i16 = 375;

/// Horizontal extent of the platform art (three tiles).
pub const PLATFORM_EXTENT: i16 = 384;

/// Segments are generated inside this offset band; it keeps every obstacle
/// inside the world's horizontal band.
pub const SEGMENT_MAX_OFFSET: i16 = 20000;

/// How far each layout reaches past its offset.
pub const STONE_AND_PLATFORM_EXTENT: i16 = FIRST_PLATFORM_OFFSET + PLATFORM_EXTENT;

pub const PLATFORM_AND_STONE_EXTENT: i16 = NEAR_PLATFORM_OFFSET + PLATFORM_EXTENT;

/// The platform's collision boxes, relative to its anchor: low shoulders on
/// both ends and the full-height middle.
pub open spec fn spec_platform_rel_boxes() -> Seq<Rect> {
    seq![
        Rect { position: Point { x: 0, y: 0 }, width: 60, height: 54 },
        Rect { position: Point { x: 60, y: 0 }, width: 264, height: 93 },
        Rect { position: Point { x: 324, y: 0 }, width: 60, height: 54 },
    ]
}

/// The keys of the platform's three tiles, left to right.
pub open spec fn spec_platform_tile_keys() -> Seq<SpriteKey> {
    seq![
        SpriteKey { label: FrameLabel::Tile, index: 13 },
        SpriteKey { label: FrameLabel::Tile, index: 14 },
        SpriteKey { label: FrameLabel::Tile, index: 15 },
    ]
}

/// The stone barrier a layout places at `(x, y)`.
pub open spec fn spec_stone_barrier(stone: ImageHandle, x: int, y: int) -> Obstacle {
    Obstacle::Barrier(
        Barrier {
            image: Image {
                element: stone,
                bounding_box: Rect {
                    position: Point { x: x as i16, y: y as i16 },
                    width: stone.width,
                    height: stone.height,
                },
            },
        },
    )
}

/// The platform a layout places at `position`: the fixed relative boxes
/// shifted to the anchor and the three tile cells of the shared sheet.
pub open spec fn spec_is_segment_platform(
    o: Obstacle,
    sheet: Rc<SpriteSheet>,
    position: Point,
) -> bool {
    match o {
        Obstacle::Platform(p) => {
            &&& p.sheet == sheet
            &&& p.position == position
            &&& p.bounding_boxes@ == spec_shifted_boxes(spec_platform_rel_boxes(), position)
            &&& p.sprites@ == spec_found_cells(sheet.sheet, spec_platform_tile_keys())
        },
        Obstacle::Barrier(_) => false,
    }
}

/// Requirements both layouts share: the offset stays in the generation
/// band, the stone art fits on the ground, and the shared sheet's cells are
/// bounded.
pub open spec fn spec_segment_inputs_ok(stone: ImageHandle, sheet: Rc<SpriteSheet>, offset_x: int) -> bool {
    &&& 0 <= offset_x <= SEGMENT_MAX_OFFSET
    &&& 0 <= stone.width <= 2000
    &&& 0 <= stone.height <= STONE_MAX_HEIGHT
    &&& sheet.sheet.spec_bounded()
}

/// Cells found in a bounded sheet are bounded, and no more cells come back
/// than names were asked for.
proof fn lemma_found_cells_bounded(sheet: &crate::sheet::Sheet, names: Seq<SpriteKey>)
    requires
        sheet.spec_bounded(),
    ensures
        spec_found_cells(*sheet, names).len() <= names.len(),
        forall|i: int|
            0 <= i < spec_found_cells(*sheet, names).len() ==> crate::sheet::spec_cell_bounded(
                #[trigger] spec_found_cells(*sheet, names)[i],
            ),
    decreases names.len(),
{
    if names.len() > 0 {
        lemma_found_cells_bounded(sheet, names.drop_last());
        crate::sheet::lemma_bounded_sheet_lookup(*sheet, names.last());
    }
}

fn platform_pieces() -> (r: ([SpriteKey; 3], [Rect; 3]))
    ensures
        r.0@ == spec_platform_tile_keys(),
        r.1@ == spec_platform_rel_boxes(),
{
    let keys = [
        SpriteKey { label: FrameLabel::Tile, index: 13 },
        SpriteKey { label: FrameLabel::Tile, index: 14 },
        SpriteKey { label: FrameLabel::Tile, index: 15 },
    ];
    let boxes = [
        Rect::new_from_x_y(0, 0, 60, 54),
        Rect::new_from_x_y(60, 0, 264, 93),
        Rect::new_from_x_y(324, 0, 60, 54),
    ];
    proof {
        assert(keys@ =~= spec_platform_tile_keys());
        assert(boxes@ =~= spec_platform_rel_boxes());
    }
    (keys, boxes)
}

/// Build one layout piece: the floating platform at `position`.
fn segment_platform(sheet: Rc<SpriteSheet>, position: Point) -> (r: Platform)
    requires
        0 <= position.x <= SEGMENT_MAX_OFFSET + NEAR_PLATFORM_OFFSET + FIRST_PLATFORM_OFFSET,
        position.y == LOW_PLATFORM || position.y == HIGH_PLATFORM,
        sheet.sheet.spec_bounded(),
    ensures
        spec_is_segment_platform(Obstacle::Platform(r), sheet, position),
        r.wf(),
        r.spec_right() == position.x + PLATFORM_EXTENT,
    {
    let (keys, boxes) = platform_pieces();
    proof {
        lemma_found_cells_bounded(&sheet.sheet, spec_platform_tile_keys());
    }
    let p = Platform::new(sheet, position, &keys, &boxes);
    proof {
        assert(p.bounding_boxes@.len() == 3);
        assert(p.bounding_boxes@[0] == (Rect {
            position: Point { x: position.x, y: position.y },
            width: 60,
            height: 54,
        }));
        assert(p.bounding_boxes@.last() == (Rect {
            position: Point { x: (position.x + 324) as i16, y: position.y },
            width: 60,
            height: 54,
        }));
    }
    p
}

/// The "stone, then platform" layout: a ground stone near the segment's
/// origin, a low platform further out.
pub fn stone_and_platform(
    stone: ImageHandle,
    sprite_sheet: Rc<SpriteSheet>,
    offset_x: i16,
) -> (r: Vec<Obstacle>)
    requires
        spec_segment_inputs_ok(stone, sprite_sheet, offset_x as int),
    ensures
        r@.len() == 2,
        forall|i: int| 0 <= i < r@.len() ==> (#[trigger] r@[i]).wf(),
        r@[0] == spec_stone_barrier(
            stone,
            offset_x + INITIAL_STONE_OFFSET,
            STONE_ON_GROUND as int,
        ),
        spec_is_segment_platform(
            r@[1],
            sprite_sheet,
            Point { x: (offset_x + FIRST_PLATFORM_OFFSET) as i16, y: LOW_PLATFORM },
        ),
        spec_rightmost(r@) == offset_x + STONE_AND_PLATFORM_EXTENT,
{
    let barrier = Barrier::new(
        Image::new(stone, Point { x: offset_x + INITIAL_STONE_OFFSET, y: STONE_ON_GROUND }),
    );
    let platform = segment_platform(
        sprite_sheet,
        Point { x: offset_x + FIRST_PLATFORM_OFFSET, y: LOW_PLATFORM },
    );
    let mut r: Vec<Obstacle> = Vec::new();
    r.push(Obstacle::Barrier(barrier));
    r.push(Obstacle::Platform(platform));
    proof {
        reveal_with_fuel(spec_rightmost, 3);
        assert(r@.drop_last() =~= seq![r@[0]]);
    }
    r
}

/// The "platform, then stone" layout: a high platform near the segment's
/// origin, a ground stone further out.
pub fn platform_and_stone(
    stone: ImageHandle,
    sprite_sheet: Rc<SpriteSheet>,
    offset_x: i16,
) -> (r: Vec<Obstacle>)
    requires
        spec_segment_inputs_ok(stone, sprite_sheet, offset_x as int),
    ensures
        r@.len() == 2,
        forall|i: int| 0 <= i < r@.len() ==> (#[trigger] r@[i]).wf(),
        r@[0] == spec_stone_barrier(
            stone,
            offset_x + SECOND_STONE_OFFSET,
            STONE_ON_GROUND as int,
        ),
        spec_is_segment_platform(
            r@[1],
            sprite_sheet,
            Point { x: (offset_x + NEAR_PLATFORM_OFFSET) as i16, y: HIGH_PLATFORM },
        ),
        spec_rightmost(r@) == offset_x + PLATFORM_AND_STONE_EXTENT,
{
    let barrier = Barrier::new(
        Image::new(stone, Point { x: offset_x + SECOND_STONE_OFFSET, y: STONE_ON_GROUND }),
    );
    let platform = segment_platform(
        sprite_sheet,
        Point { x: offset_x + NEAR_PLATFORM_OFFSET, y: HIGH_PLATFORM },
    );
    let mut r: Vec<Obstacle> = Vec::new();
    r.push(Obstacle::Barrier(barrier));
    r.push(Obstacle::Platform(platform));
    proof {
        reveal_with_fuel(spec_rightmost, 3);
        assert(r@.drop_last() =~= seq![r@[0]]);
    }
    r
}

} // verus!
