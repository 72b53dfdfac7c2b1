use walk_the_dog::character::{
    FallingEndState, Idle, JumpingEndState, RedHatBoy, RedHatBoyContext, RedHatBoyState,
    RedHatBoyStateMachine, SlidingEndState, Event, FALLING_FRAMES, FLOOR, IDLE_FRAMES,
    SLIDING_FRAMES, STARTING_POINT,
};
use walk_the_dog::engine::{Audio, ImageHandle, Renderer, Sound};
use walk_the_dog::geometry::Point;
use walk_the_dog::sheet::{Cell, FrameLabel, Sheet, SheetRect, SpriteKey};

fn audio() -> Audio {
    Audio { id: 1 }
}

fn jump_sound() -> Sound {
    Sound { id: 2 }
}

fn plain_cell() -> Cell {
    Cell {
        frame: SheetRect { x: 7, y: 11, w: 160, h: 156 },
        sprite_source_size: SheetRect { x: 58, y: 28, w: 160, h: 156 },
    }
}

/// A sheet holding every key the character machine can ask for.
fn full_boy_sheet() -> Sheet {
    let mut sheet = Sheet::new();
    let ranges = [
        (FrameLabel::Idle, 10u8),
        (FrameLabel::Run, 8),
        (FrameLabel::Slide, 5),
        (FrameLabel::Jump, 5),
        (FrameLabel::Dead, 10),
    ];
    for (label, count) in ranges {
        let mut index = 1u8;
        while index <= count {
            sheet.insert(SpriteKey { label, index }, plain_cell());
            index += 1;
        }
    }
    sheet
}

fn boy_image() -> ImageHandle {
    ImageHandle { id: 3, width: 2048, height: 1024 }
}

#[test]
fn idle_updates_cycle_frames_and_never_move() {
    let mut state = RedHatBoyState::<Idle>::new(audio(), jump_sound());
    let start = state.context().position();
    assert_eq!(start, Point { x: STARTING_POINT, y: FLOOR });
    let mut expected_frame = 0u8;
    for _ in 0..75 {
        state = state.update();
        expected_frame = if expected_frame < IDLE_FRAMES { expected_frame + 1 } else { 0 };
        assert_eq!(state.context().frame(), expected_frame);
        assert!(state.context().frame() <= IDLE_FRAMES);
        assert_eq!(state.context().position(), start);
    }
}

#[test]
fn jump_lands_exactly_once_back_on_the_floor() {
    let running = RedHatBoyState::<Idle>::new(audio(), jump_sound()).run();
    assert_eq!(running.context().velocity().x, 3);
    let mut jumping = running.jump();
    assert_eq!(jumping.context().velocity().y, -25);
    let mut landings = 0;
    let mut ticks = 0;
    let landed = loop {
        ticks += 1;
        match jumping.update() {
            JumpingEndState::Landing(running) => {
                landings += 1;
                break running;
            }
            JumpingEndState::Jumping(next) => {
                assert!(next.context().position().y < FLOOR);
                jumping = next;
            }
        }
    };
    assert_eq!(landings, 1);
    assert_eq!(ticks, 50);
    assert_eq!(landed.context().position().y, FLOOR);
    assert_eq!(landed.context().velocity().x, 3);
    assert_eq!(landed.context().velocity().y, 20);
    assert_eq!(landed.context().frame(), 0);
}

#[test]
fn slide_completes_exactly_at_the_frame_limit() {
    let mut sliding = RedHatBoyState::<Idle>::new(audio(), jump_sound()).run().slide();
    assert_eq!(sliding.context().frame(), 0);
    for tick in 1..=SLIDING_FRAMES {
        match sliding.update() {
            SlidingEndState::Sliding(next) => {
                assert!(tick < SLIDING_FRAMES, "completed only at the limit");
                assert_eq!(next.context().frame(), tick);
                sliding = next;
            }
            SlidingEndState::Complete(running) => {
                assert_eq!(tick, SLIDING_FRAMES, "completes exactly on the limit tick");
                assert_eq!(running.context().frame(), 0);
                return;
            }
        }
    }
    panic!("the slide never completed");
}

#[test]
fn fall_knocks_out_once_and_knock_out_is_terminal() {
    let mut falling = RedHatBoyState::<Idle>::new(audio(), jump_sound()).run().knock_out();
    assert_eq!(falling.context().frame(), 0);
    assert_eq!(falling.context().velocity(), Point { x: 0, y: 0 });
    let mut knock_outs = 0;
    let mut tick = 0u8;
    let dead = loop {
        tick += 1;
        match falling.update() {
            FallingEndState::Falling(next) => {
                assert!(tick < FALLING_FRAMES);
                assert_eq!(next.context().frame(), tick);
                falling = next;
            }
            FallingEndState::KnockOut(dead) => {
                knock_outs += 1;
                assert_eq!(tick, FALLING_FRAMES);
                break dead;
            }
        }
    };
    assert_eq!(knock_outs, 1);
    // terminal: no event moves a knocked-out machine
    let frozen = *dead.context();
    let mut machine = RedHatBoyStateMachine::KnockOut(dead);
    for event in [Event::Update, Event::Run, Event::Jump, Event::Slide, Event::KnockOut,
        Event::Land(300)] {
        machine = machine.transition(event);
        assert!(machine.knocked_out());
        assert_eq!(*machine.context(), frozen);
    }
}

#[test]
fn frame_key_names_the_displayed_sprite() {
    let mut boy = RedHatBoy::new(full_boy_sheet(), boy_image(), audio(), jump_sound());
    let key = boy.frame_key();
    assert_eq!(key.label, FrameLabel::Idle);
    assert_eq!(key.index, 1);
    boy.update();
    boy.update();
    boy.update();
    // one displayed frame lasts three physics ticks, 1-indexed
    assert_eq!(boy.frame_key(), SpriteKey { label: FrameLabel::Idle, index: 2 });
    boy.run_right();
    assert_eq!(boy.frame_key(), SpriteKey { label: FrameLabel::Run, index: 1 });
}

#[test]
fn bounding_box_is_the_inset_destination_box() {
    let boy = RedHatBoy::new(full_boy_sheet(), boy_image(), audio(), jump_sound());
    let cell = plain_cell();
    let dest = boy.destination_box();
    assert_eq!(dest.x(), STARTING_POINT + cell.sprite_source_size.x);
    assert_eq!(dest.y(), FLOOR + cell.sprite_source_size.y);
    assert_eq!(dest.width, cell.frame.w);
    assert_eq!(dest.height, cell.frame.h);
    let hit = boy.bounding_box();
    assert_eq!(hit.x(), dest.x() + 18);
    assert_eq!(hit.y(), dest.y() + 14);
    assert_eq!(hit.width, dest.width - 28);
    assert_eq!(hit.height, dest.height - 14);
}

#[test]
fn boy_draw_emits_the_current_sprite_blit() {
    let boy = RedHatBoy::new(full_boy_sheet(), boy_image(), audio(), jump_sound());
    let mut renderer = Renderer::new();
    boy.draw(&mut renderer);
    assert_eq!(renderer.commands.len(), 1);
    match &renderer.commands[0] {
        walk_the_dog::engine::DrawCommand::Image { image, source, destination } => {
            assert_eq!(*image, boy_image());
            let cell = plain_cell();
            assert_eq!(source.x(), cell.frame.x);
            assert_eq!(source.y(), cell.frame.y);
            assert_eq!(source.width, cell.frame.w);
            assert_eq!(source.height, cell.frame.h);
            assert_eq!(*destination, boy.destination_box());
        }
        other => panic!("expected a sprite blit, got {:?}", other),
    }
}

#[test]
fn context_update_applies_gravity_integration_and_floor_clamp() {
    let base = RedHatBoyState::<Idle>::new(audio(), jump_sound());
    let ctx = RedHatBoyContext {
        frame: 5,
        position: Point { x: STARTING_POINT, y: 400 },
        velocity: Point { x: 3, y: -3 },
        ..*base.context()
    };
    let stepped = ctx.update(29);
    assert_eq!(stepped.frame(), 6);
    assert_eq!(stepped.velocity(), Point { x: 3, y: -2 });
    assert_eq!(stepped.position(), Point { x: STARTING_POINT, y: 398 });

    // terminal velocity: gravity stops raising the fall speed at 20
    let fast = RedHatBoyContext { velocity: Point { x: 3, y: 20 }, ..ctx };
    assert_eq!(fast.update(29).velocity().y, 20);

    // the floor clamps the integrated position
    let grounded = RedHatBoyContext {
        position: Point { x: STARTING_POINT, y: FLOOR },
        velocity: Point { x: 3, y: 10 },
        ..ctx
    };
    assert_eq!(grounded.update(29).position().y, FLOOR);

    // the frame counter wraps to 0 exactly after reaching the limit
    let at_limit = RedHatBoyContext { frame: 29, ..ctx };
    assert_eq!(at_limit.update(29).frame(), 0);
}
