use walk_the_dog::engine::{
    Audio, DrawCommand, Image, ImageHandle, Key, KeyState, Renderer, Sound,
};
use walk_the_dog::geometry::{Point, Rect};
use walk_the_dog::sheet::{Cell, FrameLabel, Sheet, SheetRect, SpriteKey};

#[test]
fn key_state_tracks_presses_and_releases() {
    let mut keys = KeyState::new();
    assert!(!keys.is_pressed(Key::ArrowRight));
    assert!(!keys.is_pressed(Key::Space));
    keys.set_pressed(Key::ArrowRight);
    assert!(keys.is_pressed(Key::ArrowRight));
    assert!(!keys.is_pressed(Key::Space));
    keys.set_pressed(Key::Space);
    keys.set_released(Key::ArrowRight);
    assert!(!keys.is_pressed(Key::ArrowRight));
    assert!(keys.is_pressed(Key::Space));
}

#[test]
fn image_takes_its_box_from_the_element_and_moves() {
    let element = ImageHandle { id: 9, width: 600, height: 400 };
    let mut image = Image::new(element, Point { x: 10, y: 20 });
    assert_eq!(*image.bounding_box(), Rect::new_from_x_y(10, 20, 600, 400));
    assert_eq!(image.right(), 610);
    image.move_horizontally(-15);
    assert_eq!(image.bounding_box().x(), -5);
    assert_eq!(image.right(), 595);
    image.set_x(100);
    assert_eq!(image.right(), 700);
    assert_eq!(image.bounding_box().y(), 20);
}

#[test]
fn renderer_records_commands_in_order() {
    let element = ImageHandle { id: 9, width: 600, height: 400 };
    let image = Image::new(element, Point { x: 0, y: 0 });
    let mut renderer = Renderer::new();
    renderer.clear(&Rect::new_from_x_y(0, 0, 600, 600));
    image.draw(&mut renderer);
    renderer.draw_image(
        &element,
        &Rect::new_from_x_y(1, 2, 3, 4),
        &Rect::new_from_x_y(5, 6, 7, 8),
    );
    assert_eq!(renderer.commands.len(), 3);
    assert_eq!(renderer.commands[0], DrawCommand::Clear(Rect::new_from_x_y(0, 0, 600, 600)));
    assert_eq!(
        renderer.commands[1],
        DrawCommand::EntireImage { image: element, position: Point { x: 0, y: 0 } },
    );
    assert_eq!(
        renderer.commands[2],
        DrawCommand::Image {
            image: element,
            source: Rect::new_from_x_y(1, 2, 3, 4),
            destination: Rect::new_from_x_y(5, 6, 7, 8),
        },
    );
}

#[test]
fn sheet_lookup_returns_the_first_match_for_duplicate_keys() {
    let key = SpriteKey { label: FrameLabel::Tile, index: 13 };
    let first = Cell {
        frame: SheetRect { x: 1, y: 1, w: 10, h: 10 },
        sprite_source_size: SheetRect { x: 0, y: 0, w: 10, h: 10 },
    };
    let second = Cell {
        frame: SheetRect { x: 2, y: 2, w: 20, h: 20 },
        sprite_source_size: SheetRect { x: 0, y: 0, w: 20, h: 20 },
    };
    let mut sheet = Sheet::new();
    sheet.insert(key, first);
    sheet.insert(key, second);
    assert_eq!(sheet.get(key), Some(&first));
}

#[test]
fn sheet_lookup_misses_absent_keys() {
    let mut sheet = Sheet::new();
    sheet.insert(
        SpriteKey { label: FrameLabel::Idle, index: 1 },
        Cell {
            frame: SheetRect { x: 0, y: 0, w: 1, h: 1 },
            sprite_source_size: SheetRect { x: 0, y: 0, w: 1, h: 1 },
        },
    );
    assert!(sheet.get(SpriteKey { label: FrameLabel::Idle, index: 2 }).is_none());
    assert!(sheet.get(SpriteKey { label: FrameLabel::Run, index: 1 }).is_none());
    let sprite_sheet =
        walk_the_dog::engine::SpriteSheet::new(sheet, ImageHandle { id: 1, width: 8, height: 8 });
    assert!(sprite_sheet.cell(SpriteKey { label: FrameLabel::Run, index: 1 }).is_none());
    assert!(sprite_sheet.cell(SpriteKey { label: FrameLabel::Idle, index: 1 }).is_some());
}

#[test]
fn audio_and_sound_are_plain_handles() {
    let audio = Audio { id: 7 };
    let sound = Sound { id: 8 };
    assert_eq!(audio, Audio { id: 7 });
    assert_ne!(sound, Sound { id: 9 });
}
