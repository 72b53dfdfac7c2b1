//! Capability-facing types: asset handles, input state, the draw-command
//! buffer, positioned images and sprite sheets.
//!
//! The core never draws or plays anything itself.  A `Renderer` is a buffer
//! of `DrawCommand` values for the host to execute in order, and audio is a
//! pair of plain handles (`Audio`, `Sound`) that the core hands back when it
//! wants a sound played.

use vstd::prelude::*;

use crate::geometry::{Point, Rect};
use crate::sheet::{Cell, Sheet, SpriteKey};

verus! {

/// Width and height of the square canvas the game renders into.
pub const HEIGHT: i16 = 600;

/// Handle to an image the host has loaded, with its pixel size.
#[derive(Clone, Copy, PartialEq, Eq, Structural, Debug)]
pub struct ImageHandle {
    pub id: u32,
    pub width: i16,
    pub height: i16,
}

/// Handle to the host's audio-playback capability.
#[derive(Clone, Copy, PartialEq, Eq, Structural, Debug)]
pub struct Audio {
    pub id: u32,
}

/// Handle to a sound the host has loaded.
#[derive(Clone, Copy, PartialEq, Eq, Structural, Debug)]
pub struct Sound {
    pub id: u32,
}

/// The keys the game reads.
#[derive(Clone, Copy, PartialEq, Eq, Structural, Debug)]
pub enum Key {
    ArrowRight,
    Space,
}

/// Which of the game's keys are currently held.
#[derive(Clone, Copy, PartialEq, Eq, Structural, Debug)]
pub struct KeyState {
    pub arrow_right: bool,
    pub space: bool,
}

impl KeyState {
    /// What `is_pressed` reports for `key`.
    pub open spec fn spec_pressed(self, key: Key) -> bool {
        match key {
            Key::ArrowRight => self.arrow_right,
            Key::Space => self.space,
        }
    }

    pub fn new() -> (r: KeyState)
        ensures
            r == (KeyState { arrow_right: false, space: false }),
    {
        KeyState { arrow_right: false, space: false }
    }

    pub fn is_pressed(&self, key: Key) -> (r: bool)
        ensures
            r == self.spec_pressed(key),
    {
        match key {
            Key::ArrowRight => self.arrow_right,
            Key::Space => self.space,
        }
    }

    pub fn set_pressed(&mut self, key: Key)
        ensures
            final(self).spec_pressed(key),
            forall|k: Key| k != key ==> final(self).spec_pressed(k) == old(self).spec_pressed(k),
    {
        match key {
            Key::ArrowRight => self.arrow_right = true,
            Key::Space => self.space = true,
        }
    }

    pub fn set_released(&mut self, key: Key)
        ensures
            !final(self).spec_pressed(key),
            forall|k: Key| k != key ==> final(self).spec_pressed(k) == old(self).spec_pressed(k),
    {
        match key {
            Key::ArrowRight => self.arrow_right = false,
            Key::Space => self.space = false,
        }
    }
}

/// One render request, in the order the host must execute them.
#[derive(Clone, Copy, PartialEq, Eq, Structural, Debug)]
pub enum DrawCommand {
    /// Clear the given region.
    Clear(Rect),
    /// Blit `source` out of `image` into `destination`.
    Image { image: ImageHandle, source: Rect, destination: Rect },
    /// Draw the whole of `image` with its top-left corner at `position`.
    EntireImage { image: ImageHandle, position: Point },
}

/// A buffer of draw commands for one frame.
pub struct Renderer {
    pub commands: Vec<DrawCommand>,
}

impl Renderer {
    pub fn new() -> (r: Renderer)
        ensures
            r.commands@ == Seq::<DrawCommand>::empty(),
    {
        Renderer { commands: Vec::new() }
    }

    pub fn clear(&mut self, rect: &Rect)
        ensures
            final(self).commands@ == old(self).commands@.push(DrawCommand::Clear(*rect)),
    {
        self.commands.push(DrawCommand::Clear(*rect));
    }

    pub fn draw_image(&mut self, image: &ImageHandle, frame: &Rect, destination: &Rect)
        ensures
            final(self).commands@ == old(self).commands@.push(
                DrawCommand::Image { image: *image, source: *frame, destination: *destination },
            ),
    {
        self.commands.push(
            DrawCommand::Image { image: *image, source: *frame, destination: *destination },
        );
    }

    pub fn draw_entire_image(&mut self, image: &ImageHandle, position: &Point)
        ensures
            final(self).commands@ == old(self).commands@.push(
                DrawCommand::EntireImage { image: *image, position: *position },
            ),
    {
        self.commands.push(DrawCommand::EntireImage { image: *image, position: *position });
    }
}

/// An image placed in the world: the handle plus its current box.
#[derive(Clone, Copy, PartialEq, Eq, Structural, Debug)]
pub struct Image {
    pub element: ImageHandle,
    pub bounding_box: Rect,
}

impl Image {
    pub fn new(element: ImageHandle, position: Point) -> (r: Image)
        ensures
            r == (Image {
                element,
                bounding_box: Rect { position, width: element.width, height: element.height },
            }),
    {
        let bounding_box = Rect { position, width: element.width, height: element.height };
        Image { element, bounding_box }
    }

    pub fn draw(&self, renderer: &mut Renderer)
        ensures
            final(renderer).commands@ == old(renderer).commands@.push(
                DrawCommand::EntireImage {
                    image: self.element,
                    position: self.bounding_box.position,
                },
            ),
    {
        renderer.draw_entire_image(&self.element, &self.bounding_box.position)
    }

    pub fn bounding_box(&self) -> (r: &Rect)
        ensures
            *r == self.bounding_box,
    {
        &self.bounding_box
    }

    pub fn move_horizontally(&mut self, distance: i16)
        requires
            i16::MIN <= old(self).bounding_box.position.x + distance <= i16::MAX,
        ensures
            *final(self) == (Image {
                bounding_box: Rect {
                    position: Point {
                        x: (old(self).bounding_box.position.x + distance) as i16,
                        y: old(self).bounding_box.position.y,
                    },
                    ..old(self).bounding_box
                },
                ..*old(self)
            }),
    {
        let x = self.bounding_box.x() + distance;
        self.set_x(x);
    }

    pub fn right(&self) -> (r: i16)
        requires
            i16::MIN <= self.bounding_box.spec_right() <= i16::MAX,
        ensures
            r == self.bounding_box.spec_right(),
    {
        self.bounding_box.right()
    }

    pub fn set_x(&mut self, x: i16)
        ensures
            *final(self) == (Image {
                bounding_box: Rect {
                    position: Point { x, y: old(self).bounding_box.position.y },
                    ..old(self).bounding_box
                },
                ..*old(self)
            }),
    {
        self.bounding_box.set_x(x);
    }
}

/// A sheet of cells together with the image their pixels live in.
#[derive(Clone, Debug)]
pub struct SpriteSheet {
    pub sheet: Sheet,
    pub image: ImageHandle,
}

impl SpriteSheet {
    pub fn new(sheet: Sheet, image: ImageHandle) -> (r: SpriteSheet)
        ensures
            r.sheet == sheet,
            r.image == image,
    {
        SpriteSheet { sheet, image }
    }

    pub fn cell(&self, key: SpriteKey) -> (r: Option<&Cell>)
        ensures
            match r {
                Some(c) => self.sheet.spec_lookup(key) == Some(*c),
                None => self.sheet.spec_lookup(key) is None,
            },
    {
        self.sheet.get(key)
    }

    pub fn draw(&self, renderer: &mut Renderer, source: &Rect, destination: &Rect)
        ensures
            final(renderer).commands@ == old(renderer).commands@.push(
                DrawCommand::Image { image: self.image, source: *source, destination: *destination },
            ),
    {
        renderer.draw_image(&self.image, source, destination)
    }
}

} // verus!
