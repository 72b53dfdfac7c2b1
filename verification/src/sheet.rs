//! Sprite-sheet data: cell geometry and lookup by structured sprite key.
//!
//! A sheet maps sprite keys to cells.  A key names either one animation
//! frame of the character (a pose label plus a 1-indexed frame number) or
//! one tile of the obstacle art (the `Tile` label plus the tile number).
//! The host turns whatever naming its asset format uses into these keys
//! when it loads a sheet.

use vstd::prelude::*;

verus! {

/// The pose a sprite key belongs to, or `Tile` for obstacle art.
#[derive(Clone, Copy, PartialEq, Eq, Structural, Debug)]
pub enum FrameLabel {
    Idle,
    Run,
    Slide,
    Jump,
    Dead,
    Tile,
}

/// Names one cell of a sprite sheet.
#[derive(Clone, Copy, PartialEq, Eq, Structural, Debug)]
pub struct SpriteKey {
    pub label: FrameLabel,
    pub index: u8,
}

/// A rectangle inside a sheet image, as the asset format states it.
#[derive(Clone, Copy, PartialEq, Eq, Structural, Debug)]
pub struct SheetRect {
    pub x: i16,
    pub y: i16,
    pub w: i16,
    pub h: i16,
}

/// One sheet cell: where its pixels sit in the sheet image (`frame`) and
/// how the trimmed sprite is offset inside its nominal box
/// (`sprite_source_size`).
#[derive(Clone, Copy, PartialEq, Eq, Structural, Debug)]
pub struct Cell {
    pub frame: SheetRect,
    pub sprite_source_size: SheetRect,
}

/// A sprite sheet's cell table.  Lookup returns the first entry with the
/// asked-for key, so earlier entries shadow later ones.
#[derive(Clone, Debug)]
pub struct Sheet {
    pub frames: Vec<(SpriteKey, Cell)>,
}

/// The cell geometry stays within a bound that keeps every coordinate
/// computation in the crate inside `i16`.
pub open spec fn spec_cell_bounded(c: Cell) -> bool {
    &&& 0 <= c.frame.x <= 8192
    &&& 0 <= c.frame.y <= 8192
    &&& 0 <= c.frame.w <= 1024
    &&& 0 <= c.frame.h <= 1024
    &&& -1024 <= c.sprite_source_size.x <= 1024
    &&& -1024 <= c.sprite_source_size.y <= 1024
    &&& 0 <= c.sprite_source_size.w <= 1024
    &&& 0 <= c.sprite_source_size.h <= 1024
}

/// First-match lookup over a sequence of sheet entries.
pub open spec fn spec_lookup_entries(entries: Seq<(SpriteKey, Cell)>, key: SpriteKey) -> Option<
    Cell,
>
    decreases entries.len(),
{
    if entries.len() == 0 {
        None
    } else if entries[0].0 == key {
        Some(entries[0].1)
    } else {
        spec_lookup_entries(entries.drop_first(), key)
    }
}

proof fn lemma_lookup_step(entries: Seq<(SpriteKey, Cell)>, key: SpriteKey, i: int)
    requires
        0 <= i < entries.len(),
        entries[i].0 != key,
    ensures
        spec_lookup_entries(entries.skip(i), key) == spec_lookup_entries(entries.skip(i + 1), key),
{
    assert(entries.skip(i).len() > 0);
    assert(entries.skip(i)[0] == entries[i]);
    assert(entries.skip(i).drop_first() =~= entries.skip(i + 1));
}

impl Sheet {
    /// What a lookup in this sheet returns.
    pub open spec fn spec_lookup(self, key: SpriteKey) -> Option<Cell> {
        spec_lookup_entries(self.frames@, key)
    }

    /// Every cell of the sheet is geometrically bounded.
    pub open spec fn spec_bounded(self) -> bool {
        forall|i: int|
            0 <= i < self.frames@.len() ==> spec_cell_bounded(#[trigger] self.frames@[i].1)
    }

    pub fn new() -> (r: Sheet)
        ensures
            r.frames@ == Seq::<(SpriteKey, Cell)>::empty(),
    {
        Sheet { frames: Vec::new() }
    }

    pub fn insert(&mut self, key: SpriteKey, cell: Cell)
        ensures
            final(self).frames@ == old(self).frames@.push((key, cell)),
    {
        self.frames.push((key, cell));
    }

    /// The first cell stored under `key`, if any.
    pub fn get(&self, key: SpriteKey) -> (r: Option<&Cell>)
        ensures
            match r {
                Some(c) => self.spec_lookup(key) == Some(*c),
                None => self.spec_lookup(key) is None,
            },
    {
        let n = self.frames.len();
        let mut i: usize = 0;
        assert(self.frames@.skip(0) =~= self.frames@);
        while i < n
            invariant
                0 <= i <= n,
                n == self.frames@.len(),
                spec_lookup_entries(self.frames@, key) == spec_lookup_entries(
                    self.frames@.skip(i as int),
                    key,
                ),
            decreases n - i,
        {
            let entry = &self.frames[i];
            if entry.0 == key {
                assert(self.frames@.skip(i as int)[0] == self.frames@[i as int]);
                return Some(&entry.1);
            }
            proof {
                lemma_lookup_step(self.frames@, key, i as int);
            }
            i = i + 1;
        }
        assert(self.frames@.skip(n as int) =~= Seq::<(SpriteKey, Cell)>::empty());
        None
    }
}

/// A bounded sheet yields only bounded cells.
pub proof fn lemma_bounded_sheet_lookup(sheet: Sheet, key: SpriteKey)
    requires
        sheet.spec_bounded(),
    ensures
        sheet.spec_lookup(key) matches Some(c) ==> spec_cell_bounded(c),
{
    lemma_bounded_entries_lookup(sheet.frames@, key);
}

proof fn lemma_bounded_entries_lookup(entries: Seq<(SpriteKey, Cell)>, key: SpriteKey)
    requires
        forall|i: int| 0 <= i < entries.len() ==> spec_cell_bounded(#[trigger] entries[i].1),
    ensures
        spec_lookup_entries(entries, key) matches Some(c) ==> spec_cell_bounded(c),
    decreases entries.len(),
{
    if entries.len() > 0 && entries[0].0 != key {
        assert(forall|i: int|
            0 <= i < entries.drop_first().len() ==> spec_cell_bounded(
                #[trigger] entries.drop_first()[i].1,
            ));
        lemma_bounded_entries_lookup(entries.drop_first(), key);
    }
}

} // verus!
