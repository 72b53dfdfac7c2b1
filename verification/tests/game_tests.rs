use std::rc::Rc;

use walk_the_dog::character::{
    KnockOut, RedHatBoy, RedHatBoyContext, RedHatBoyState, RedHatBoyStateMachine, FLOOR,
    STARTING_POINT,
};
use walk_the_dog::engine::{Audio, Image, ImageHandle, KeyState, Sound, SpriteSheet};
use walk_the_dog::game::{
    GameError, HostRequests, Walk, WalkTheDog, WalkTheDogState, WalkTheDogStateMachine, Walking,
    OBSTACLE_BUFFER,
};
use walk_the_dog::geometry::{Point, Rect};
use walk_the_dog::obstacle::{rightmost, Barrier, Obstacle, Platform};
use walk_the_dog::segment::{
    PLATFORM_AND_STONE_EXTENT, STONE_AND_PLATFORM_EXTENT,
};
use walk_the_dog::sheet::{Cell, FrameLabel, Sheet, SheetRect, SpriteKey};

fn audio() -> Audio {
    Audio { id: 1 }
}

fn jump_sound() -> Sound {
    Sound { id: 2 }
}

fn boy_image() -> ImageHandle {
    ImageHandle { id: 3, width: 2048, height: 1024 }
}

fn background_image() -> ImageHandle {
    ImageHandle { id: 4, width: 600, height: 600 }
}

fn stone_image() -> ImageHandle {
    ImageHandle { id: 5, width: 90, height: 54 }
}

fn tiles_image() -> ImageHandle {
    ImageHandle { id: 6, width: 1024, height: 1024 }
}

fn plain_cell() -> Cell {
    Cell {
        frame: SheetRect { x: 7, y: 11, w: 160, h: 156 },
        sprite_source_size: SheetRect { x: 58, y: 28, w: 160, h: 156 },
    }
}

fn full_boy_sheet() -> Sheet {
    let mut sheet = Sheet::new();
    let ranges = [
        (FrameLabel::Idle, 10u8),
        (FrameLabel::Run, 8),
        (FrameLabel::Slide, 5),
        (FrameLabel::Jump, 5),
        (FrameLabel::Dead, 10),
    ];
    for (label, count) in ranges {
        let mut index = 1u8;
        while index <= count {
            sheet.insert(SpriteKey { label, index }, plain_cell());
            index += 1;
        }
    }
    sheet
}

fn tile_cell() -> Cell {
    Cell {
        frame: SheetRect { x: 0, y: 0, w: 128, h: 93 },
        sprite_source_size: SheetRect { x: 0, y: 0, w: 128, h: 93 },
    }
}

fn tiles_sheet() -> Sheet {
    let mut sheet = Sheet::new();
    for index in [13u8, 14, 15] {
        sheet.insert(SpriteKey { label: FrameLabel::Tile, index }, tile_cell());
    }
    sheet
}

fn initialized_game() -> WalkTheDog {
    WalkTheDog::new()
        .initialize(
            full_boy_sheet(),
            boy_image(),
            audio(),
            jump_sound(),
            background_image(),
            stone_image(),
            tiles_sheet(),
            tiles_image(),
        )
        .expect("fresh game initializes")
}

#[test]
fn first_update_without_input_leaves_the_boy_idle_in_place() {
    let mut game = initialized_game();
    let requests = game.update(&KeyState::new(), false);
    assert_eq!(requests, HostRequests { play: None, show_new_game_control: false, hide_control: false });
    match game.machine.as_ref().expect("initialized") {
        WalkTheDogStateMachine::Ready(state) => {
            let context = state.walk.boy.state_machine.context();
            assert!(matches!(state.walk.boy.state_machine, RedHatBoyStateMachine::Idle(_)));
            assert_eq!(context.frame(), 1);
            assert_eq!(context.position(), Point { x: STARTING_POINT, y: FLOOR });
        }
        _ => panic!("no input: the game must still be waiting in Ready"),
    }
}

#[test]
fn initialize_twice_is_an_error() {
    let game = initialized_game();
    let again = game.initialize(
        full_boy_sheet(),
        boy_image(),
        audio(),
        jump_sound(),
        background_image(),
        stone_image(),
        tiles_sheet(),
        tiles_image(),
    );
    assert_eq!(again.err(), Some(GameError::AlreadyInitialized));
}

#[test]
fn arrow_right_starts_walking_with_a_running_boy() {
    let mut game = initialized_game();
    let keys = KeyState { arrow_right: true, space: false };
    game.update(&keys, false);
    match game.machine.as_ref().expect("initialized") {
        WalkTheDogStateMachine::Walking(state) => {
            assert!(matches!(state.walk.boy.state_machine, RedHatBoyStateMachine::Running(_)));
            assert_eq!(state.walk.boy.state_machine.context().velocity().x, 3);
        }
        _ => panic!("the right arrow must start the walk"),
    }
}

/// A platform whose only collision box ends at `right`, high above the
/// character so the collision protocol never fires in these tests.
fn marker_platform(right: i16) -> Obstacle {
    let sheet = Rc::new(SpriteSheet::new(tiles_sheet(), tiles_image()));
    let keys: [SpriteKey; 0] = [];
    let boxes = [Rect::new_from_x_y(0, 0, 10, 1)];
    Obstacle::Platform(Platform::new(
        sheet,
        Point { x: right - 10, y: 0 },
        &keys,
        &boxes,
    ))
}

fn walking_machine(walk: Walk) -> WalkTheDogStateMachine {
    WalkTheDogStateMachine::Walking(WalkTheDogState { _state: Walking, walk })
}

fn running_boy() -> RedHatBoy {
    let mut boy = RedHatBoy::new(full_boy_sheet(), boy_image(), audio(), jump_sound());
    boy.run_right();
    boy
}

fn test_backgrounds() -> (Image, Image) {
    let bg = background_image();
    (
        Image::new(bg, Point { x: 0, y: 0 }),
        Image::new(bg, Point { x: bg.width, y: 0 }),
    )
}

#[test]
fn obstacle_at_the_origin_boundary_is_culled_only_next_pass() {
    // the obstacle's right edge sits at 3; this tick scrolls it to exactly 0
    let walk = Walk {
        boy: running_boy(),
        backgrounds: test_backgrounds(),
        obstacles: vec![marker_platform(3)],
        obstacle_sheet: Rc::new(SpriteSheet::new(tiles_sheet(), tiles_image())),
        stone: stone_image(),
        timeline: 1500,
    };
    let keys = KeyState::new();
    let (machine, _) = walking_machine(walk).update(&keys, false);
    let walk = match &machine {
        WalkTheDogStateMachine::Walking(state) => &state.walk,
        _ => panic!("still walking"),
    };
    // right() == 0: kept until the next pass observes right() <= 0
    assert_eq!(walk.obstacles.len(), 1);
    assert_eq!(walk.obstacles[0].right(), 0);
    let (machine, _) = machine.update(&keys, false);
    let walk = match &machine {
        WalkTheDogStateMachine::Walking(state) => &state.walk,
        _ => panic!("still walking"),
    };
    assert_eq!(walk.obstacles.len(), 0);
}

#[test]
fn knocked_out_boy_ends_the_game_and_requests_the_control() {
    let dead = RedHatBoyState::<KnockOut> {
        context: RedHatBoyContext {
            frame: 29,
            position: Point { x: STARTING_POINT, y: FLOOR },
            velocity: Point { x: 0, y: 0 },
            audio: audio(),
            jump_sound: jump_sound(),
        },
        _state: KnockOut,
    };
    let walk = Walk {
        boy: RedHatBoy {
            state_machine: RedHatBoyStateMachine::KnockOut(dead),
            sprite_sheet: full_boy_sheet(),
            image: boy_image(),
        },
        backgrounds: test_backgrounds(),
        obstacles: vec![],
        obstacle_sheet: Rc::new(SpriteSheet::new(tiles_sheet(), tiles_image())),
        stone: stone_image(),
        timeline: 1500,
    };
    let keys = KeyState::new();
    let (machine, requests) = walking_machine(walk).update(&keys, false);
    assert!(matches!(machine, WalkTheDogStateMachine::GameOver(_)));
    assert!(requests.show_new_game_control);
    assert!(!requests.hide_control);
    assert_eq!(requests.play, None);
    // the fresh control has no pending activation: polling it changes nothing
    let (machine, requests) = machine.update(&keys, false);
    assert!(matches!(machine, WalkTheDogStateMachine::GameOver(_)));
    assert_eq!(requests, HostRequests { play: None, show_new_game_control: false, hide_control: false });
    // the activation arrives: back to Ready with a fresh walk, control hidden
    let (machine, requests) = machine.update(&keys, true);
    assert!(requests.hide_control);
    match &machine {
        WalkTheDogStateMachine::Ready(state) => {
            assert!(matches!(state.walk.boy.state_machine, RedHatBoyStateMachine::Idle(_)));
            assert_eq!(state.walk.timeline, STONE_AND_PLATFORM_EXTENT);
            assert_eq!(state.walk.obstacles.len(), 2);
        }
        _ => panic!("a new game starts in Ready"),
    }
}

#[test]
fn generator_appends_one_of_the_two_layouts() {
    let mut walk = Walk {
        boy: running_boy(),
        backgrounds: test_backgrounds(),
        obstacles: vec![],
        obstacle_sheet: Rc::new(SpriteSheet::new(tiles_sheet(), tiles_image())),
        stone: stone_image(),
        timeline: 500,
    };
    walk.generate_next_segment();
    assert_eq!(walk.obstacles.len(), 2);
    let offset = 500 + OBSTACLE_BUFFER;
    assert!(
        walk.timeline == offset + STONE_AND_PLATFORM_EXTENT
            || walk.timeline == offset + PLATFORM_AND_STONE_EXTENT,
        "the cursor lands on one of the two layout extents, got {}",
        walk.timeline
    );
    assert_eq!(rightmost(&walk.obstacles), walk.timeline);
}

#[test]
fn rightmost_takes_the_maximum_right_edge() {
    let list: Vec<Obstacle> = vec![];
    assert_eq!(rightmost(&list), 0);
    let list = vec![
        marker_platform(40),
        Obstacle::Barrier(Barrier::new(Image::new(stone_image(), Point { x: 700, y: 546 }))),
        marker_platform(320),
    ];
    // the barrier reports its fixed nominal extent of 250
    assert_eq!(rightmost(&list), 320);
}

#[test]
fn space_in_walking_requests_the_jump_sound_once() {
    let walk = Walk {
        boy: running_boy(),
        backgrounds: test_backgrounds(),
        obstacles: vec![],
        obstacle_sheet: Rc::new(SpriteSheet::new(tiles_sheet(), tiles_image())),
        stone: stone_image(),
        timeline: 1500,
    };
    let keys = KeyState { arrow_right: false, space: true };
    let (machine, requests) = walking_machine(walk).update(&keys, false);
    assert_eq!(
        requests.play,
        Some(walk_the_dog::game::PlayRequest { audio: audio(), sound: jump_sound() })
    );
    // already jumping: holding space requests nothing further
    let (_, requests) = machine.update(&keys, false);
    assert_eq!(requests.play, None);
}

#[test]
fn background_tile_wraps_just_after_leaving_the_screen() {
    let bg = background_image();
    assert_eq!(bg.width, 600);
    let walk = Walk {
        boy: running_boy(),
        backgrounds: (
            Image::new(bg, Point { x: -599, y: 0 }),
            Image::new(bg, Point { x: 1, y: 0 }),
        ),
        obstacles: vec![],
        obstacle_sheet: Rc::new(SpriteSheet::new(tiles_sheet(), tiles_image())),
        stone: stone_image(),
        timeline: 1500,
    };
    let (machine, _) = walking_machine(walk).update(&KeyState::new(), false);
    let walk = match &machine {
        WalkTheDogStateMachine::Walking(state) => &state.walk,
        _ => panic!("still walking"),
    };
    // both tiles scrolled left by 3; the first left the screen and was
    // repositioned immediately after the second
    assert_eq!(walk.backgrounds.1.bounding_box().x(), -2);
    assert_eq!(walk.backgrounds.0.bounding_box().x(), 598);
}

#[test]
fn scroll_room_runs_out_at_the_world_edge() {
    let mut walk = Walk {
        boy: running_boy(),
        backgrounds: test_backgrounds(),
        obstacles: vec![marker_platform(100)],
        obstacle_sheet: Rc::new(SpriteSheet::new(tiles_sheet(), tiles_image())),
        stone: stone_image(),
        timeline: 1500,
    };
    assert!(walk.has_scroll_room());
    // an obstacle parked on the world band's left edge has no room left
    walk.obstacles = vec![marker_platform(-23990)];
    assert!(!walk.has_scroll_room());
}
