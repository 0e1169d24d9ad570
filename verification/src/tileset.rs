//! The sprite sheet of the road pieces, laid out for inspection.

use vstd::prelude::*;
use vstd::arithmetic::div_mod::lemma_fundamental_div_mod_converse;

verus! {

/// Columns of the sheet.
pub const SHEET_COLUMNS: usize = 4;

/// Rows of the sheet.
pub const SHEET_ROWS: usize = 2;

/// Edge of a sprite on the sheet, in pixels of the sheet.
pub const SHEET_SPRITE_SIZE: u32 = 32;

/// Distance between two sprites on screen: 40 pixels.
pub const SHEET_SPACING: i64 = 40_000_000_000;

/// A sprite of the sheet and where it is shown.
#[derive(Clone, Copy, Debug, PartialEq, Eq, Structural)]
pub struct SheetSprite {
    pub index: usize,
    pub x: i64,
    pub y: i64,
}

/// The sprite with number `index`: the sheet is shown row by row, each row
/// `SHEET_SPACING` under the one before, each column as far to the right
/// of the one before.
pub open spec fn sheet_sprite(index: int) -> SheetSprite {
    SheetSprite {
        index: index as usize,
        x: ((index % 4) * SHEET_SPACING) as i64,
        y: (-(index / 4) * SHEET_SPACING) as i64,
    }
}

/// All sprites of the sheet, in the order of their numbers.
#[allow(non_snake_case)]
pub fn setupMap() -> (sprites: Vec<SheetSprite>)
    ensures
        sprites@ == Seq::new(8, |index: int| sheet_sprite(index)),
{
    let mut sprites: Vec<SheetSprite> = Vec::new();
    let mut row: usize = 0;
    while row < SHEET_ROWS
        invariant
            row <= SHEET_ROWS,
            sprites@.len() == row * 4,
            forall|j: int| 0 <= j < sprites@.len() ==> sprites@[j] == sheet_sprite(j),
        decreases SHEET_ROWS - row,
    {
        let mut col: usize = 0;
        while col < SHEET_COLUMNS
            invariant
                row < SHEET_ROWS,
                col <= SHEET_COLUMNS,
                sprites@.len() == row * 4 + col,
                forall|j: int| 0 <= j < sprites@.len() ==> sprites@[j] == sheet_sprite(j),
            decreases SHEET_COLUMNS - col,
        {
            let index: usize = row * 4 + col;
            proof {
                lemma_fundamental_div_mod_converse(index as int, 4, row as int, col as int);
            }
            sprites.push(
                SheetSprite {
                    index,
                    x: (col as i64) * SHEET_SPACING,
                    y: -(row as i64) * SHEET_SPACING,
                },
            );
            col = col + 1;
        }
        row = row + 1;
    }
    assert(sprites@ =~= Seq::new(8, |index: int| sheet_sprite(index)));
    sprites
}

} // verus!
