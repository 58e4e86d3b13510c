//! Compositing of the scratch mask and the message table into the glyphs
//! that the card shows.

use vstd::prelude::*;

use crate::geometry::{col_of, row_of, AREA, HEIGHT, PADDING, WIDTH};
use crate::mask::ScratchMask;
use crate::message::{invitation_rows, MessageTable};

verus! {

/// The glyph that ends each row; it stands in column 0 of every row.
pub const SEPARATOR: char = '\n';

/// The glyph of a scratched cell that shows no message character.
pub const TOP_FILL: char = '0';

/// The coating glyph of an unscratched cell in a column `col` with
/// `col % 3 == 1`.
pub const BOTTOM_FILL_ONE: char = 'Z';

/// The coating glyph of an unscratched cell in any other column.
pub const BOTTOM_FILL_OTHER: char = 'O';

/// The coating glyph of an unscratched cell in column `col`.
pub open spec fn bottom_fill(col: int) -> char {
    if col % 3 == 1 {
        BOTTOM_FILL_ONE
    } else {
        BOTTOM_FILL_OTHER
    }
}

/// Whether the cell at (`row`, `col`) may show the message: past the padding,
/// not in the first row, and not in a row whose text has exactly as many
/// characters as the row's number.
pub open spec fn is_message_cell(message: Seq<Seq<char>>, row: int, col: int) -> bool {
    col > PADDING && row != 0 && row != message[row].len()
}

/// The glyph shown at linear index `i`.
pub open spec fn glyph(mask: Seq<bool>, message: Seq<Seq<char>>, i: int) -> char {
    let col = col_of(i);
    let row = row_of(i);
    if col == 0 {
        SEPARATOR
    } else if mask[i] {
        if is_message_cell(message, row, col) && col < message[row].len() {
            message[row][col]
        } else {
            TOP_FILL
        }
    } else {
        bottom_fill(col)
    }
}

/// The glyphs of the whole card, in grid order.
pub open spec fn composed(mask: Seq<bool>, message: Seq<Seq<char>>) -> Seq<char> {
    Seq::new(AREA as nat, |i: int| glyph(mask, message, i))
}

/// Whether some row of the message holds the row separator.
pub open spec fn holds_separator(message: Seq<Seq<char>>) -> bool {
    exists|r: int, c: int|
        0 <= r < message.len() && 0 <= c < message[r].len() && #[trigger] message[r][c]
            == SEPARATOR
}

/// The glyph of one cell, given its flag and its place.
fn cell_glyph(message: &MessageTable, scratched: bool, row: usize, col: usize) -> (r: char)
    requires
        message.wf(),
        row < HEIGHT,
        1 <= col < WIDTH,
    ensures
        r == (if scratched {
            if is_message_cell(message@, row as int, col as int) && col < message@[row as int].len() {
                message@[row as int][col as int]
            } else {
                TOP_FILL
            }
        } else {
            bottom_fill(col as int)
        }),
{
    if !scratched {
        if col % 3 == 1 {
            BOTTOM_FILL_ONE
        } else {
            BOTTOM_FILL_OTHER
        }
    } else {
        let len = message.row_len(row);
        if col > PADDING && row != 0 && row != len && col < len {
            message.char_at(row, col)
        } else {
            TOP_FILL
        }
    }
}

/// The glyphs that the card shows for a mask and a message: a separator in
/// column 0 of each row; elsewhere the coating where the cell is unscratched,
/// and where it is scratched the message character or the top fill.
pub fn compose(mask: &ScratchMask, message: &MessageTable) -> (r: Vec<char>)
    requires
        mask.wf(),
        message.wf(),
    ensures
        r@ == composed(mask@, message@),
{
    let flags = mask.all();
    let mut out: Vec<char> = Vec::new();
    let mut index: usize = 0;
    while index < AREA
        invariant
            flags@ == mask@,
            mask.wf(),
            message.wf(),
            index <= AREA,
            out@ =~= Seq::new(index as nat, |i: int| glyph(mask@, message@, i)),
        decreases AREA - index,
    {
        let col = index % WIDTH;
        let row = index / WIDTH;
        let g = if col == 0 {
            SEPARATOR
        } else {
            cell_glyph(message, flags[index], row, col)
        };
        out.push(g);
        index = index + 1;
    }
    out
}

/// Column 0 of every row, and no other cell, shows the row separator,
/// whatever the mask, when no row of the message holds it.
pub proof fn lemma_separator_only_in_column_zero(mask: Seq<bool>, message: Seq<Seq<char>>, i: int)
    requires
        mask.len() == AREA,
        message.len() == HEIGHT,
        !holds_separator(message),
        0 <= i < AREA,
    ensures
        (composed(mask, message)[i] == SEPARATOR) <==> (col_of(i) == 0),
{
    let col = col_of(i);
    let row = row_of(i);
    assert(0 <= row < HEIGHT);
    if col != 0 && mask[i] && is_message_cell(message, row, col) && col < message[row].len() {
        assert(message[row][col] != SEPARATOR);
    }
}

/// No row of the invitation holds the row separator, so on a card that hides
/// it the separator marks exactly column 0.
pub proof fn lemma_invitation_holds_no_separator()
    ensures
        !holds_separator(invitation_rows()),
{
    reveal_strlit("");
    reveal_strlit("    Dear people at Zoo, ");
    reveal_strlit("    would you like to ");
    reveal_strlit("    build the future ");
    reveal_strlit("    of hardware design together? ");
}

/// Compositing depends on the mask and the message alone: equal inputs give
/// equal glyphs.
pub proof fn lemma_compose_is_pure(
    mask_a: Seq<bool>,
    mask_b: Seq<bool>,
    message_a: Seq<Seq<char>>,
    message_b: Seq<Seq<char>>,
)
    requires
        mask_a == mask_b,
        message_a == message_b,
    ensures
        composed(mask_a, message_a) == composed(mask_b, message_b),
{
}

} // verus!
