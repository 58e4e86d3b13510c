//! The message table: the text that scratching reveals, one row per grid row.

use vstd::prelude::*;

use crate::geometry::HEIGHT;

verus! {

/// The hidden message, one row of characters per grid row.
pub struct MessageTable {
    rows: Vec<Vec<char>>,
}

impl View for MessageTable {
    type V = Seq<Seq<char>>;

    closed spec fn view(&self) -> Seq<Seq<char>> {
        Seq::new(self.rows@.len(), |r: int| self.rows@[r]@)
    }
}

/// The characters of a string slice, in order.
fn chars_of(s: &str) -> (r: Vec<char>)
    ensures
        r@ == s@,
{
    let n = s.unicode_len();
    let mut out: Vec<char> = Vec::new();
    let mut k: usize = 0;
    while k < n
        invariant
            n == s@.len(),
            k <= n,
            out@ == s@.subrange(0, k as int),
        decreases n - k,
    {
        out.push(s.get_char(k));
        k = k + 1;
        assert(out@ =~= s@.subrange(0, k as int));
    }
    assert(out@ =~= s@);
    out
}

/// The rows of the invitation that the card hides.
pub open spec fn invitation_rows() -> Seq<Seq<char>> {
    seq![
        ""@,
        "    Dear people at Zoo, "@,
        "    would you like to "@,
        "    build the future "@,
        "    of hardware design together? "@,
        ""@,
    ]
}

impl MessageTable {
    /// A table holds exactly one row per grid row.
    pub open spec fn wf(&self) -> bool {
        self@.len() == HEIGHT
    }

    /// A table made of the given rows, or `None` where their number is not
    /// the grid's number of rows.
    pub fn new(rows: Vec<Vec<char>>) -> (r: Option<MessageTable>)
        ensures
            match r {
                Some(t) => rows@.len() == HEIGHT && t.wf() && t@ == Seq::new(
                    rows@.len(),
                    |k: int| rows@[k]@,
                ),
                None => rows@.len() != HEIGHT,
            },
    {
        if rows.len() == HEIGHT {
            Some(MessageTable { rows })
        } else {
            None
        }
    }

    /// The table of the invitation that the card hides; its first and last
    /// rows are blank.
    pub fn invitation() -> (r: MessageTable)
        ensures
            r.wf(),
            r@ == invitation_rows(),
    {
        let mut rows: Vec<Vec<char>> = Vec::new();
        rows.push(chars_of(""));
        rows.push(chars_of("    Dear people at Zoo, "));
        rows.push(chars_of("    would you like to "));
        rows.push(chars_of("    build the future "));
        rows.push(chars_of("    of hardware design together? "));
        rows.push(chars_of(""));
        let r = MessageTable { rows };
        assert(r@ =~= invitation_rows());
        r
    }

    /// The number of characters of row `row`.
    pub fn row_len(&self, row: usize) -> (r: usize)
        requires
            self.wf(),
            row < HEIGHT,
        ensures
            r == self@[row as int].len(),
    {
        self.rows[row].len()
    }

    /// The character at offset `col` of row `row`.
    pub fn char_at(&self, row: usize, col: usize) -> (r: char)
        requires
            self.wf(),
            row < HEIGHT,
            col < self@[row as int].len(),
        ensures
            r == self@[row as int][col as int],
    {
        self.rows[row][col]
    }
}

} // verus!
