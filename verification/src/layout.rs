//! The fourths layout: from a raw key index to a position on the musical grid.

use vstd::prelude::*;

verus! {

/// Index of the first key that belongs to a full row of the matrix.
pub const FIRST_ROW_KEY: u8 = 4;

/// Number of keys in one row of the matrix.
pub const ROW_WIDTH: u8 = 16;

/// How far each row is pulled back, so that a row starts a fourth (five
/// semitones) above the row before it.
pub const ROW_PULLBACK: u8 = 11;

/// Number of full rows that lie below the key `num`.
///
/// Keys below `FIRST_ROW_KEY` have no row beneath them: the count saturates at
/// zero there instead of wrapping around.
pub open spec fn row_of(num: int) -> int {
    if num < 4 {
        0
    } else {
        (num - 4) / 16
    }
}

/// Position of key `num` on the fourths layout: every full row below the key
/// pulls it back by eleven.
pub open spec fn remap(num: int) -> int {
    num - 11 * row_of(num)
}

/// Maps a raw key index to its position on the fourths layout.
///
/// The result depends on `num` alone. Indices below `FIRST_ROW_KEY` are
/// returned unchanged.
pub fn subtract_eleven_on_multiple_of_sixteen(num: u8) -> (pos: u8)
    ensures
        pos == remap(num as int),
        pos <= num,
        num >= 4 ==> pos == num - 11 * ((num - 4) / 16),
        num < 4 ==> pos == num,
{
    let offset: u8 = num.saturating_sub(FIRST_ROW_KEY) / ROW_WIDTH;
    num - ROW_PULLBACK * offset
}

/// One row up is a fourth up: from the first full row on, the key sixteen
/// places further lies five positions higher, since a row of sixteen is pulled
/// back by eleven.
pub proof fn lemma_row_step(num: u8)
    requires
        4 <= num,
        num + 16 <= u8::MAX,
    ensures
        remap(num + 16) - remap(num as int) == 5,
{
}

/// Below the first full row nothing is pulled back yet, so the key sixteen
/// places further lies sixteen positions higher.
pub proof fn lemma_row_step_before_first_row(num: u8)
    requires
        num < 4,
    ensures
        remap(num + 16) - remap(num as int) == 16,
{
}

} // verus!
