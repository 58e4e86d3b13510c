//! The interactive card: the drag state, the scratch mask, and how pointer
//! events change them.

use vstd::prelude::*;

use crate::compose::{compose, composed};
use crate::geometry::{pointer_cell, pointer_cell_index, AREA};
use crate::mask::ScratchMask;
use crate::message::MessageTable;

verus! {

/// Whether the pointer is pressed.
#[derive(Clone, Copy, Debug, PartialEq, Eq, Structural)]
pub enum DragState {
    Idle,
    Dragging,
}

/// A pointer event, as the card sees it.
#[derive(Clone, Copy, Debug, PartialEq, Eq, Structural)]
pub enum PointerEvent {
    /// The pointer was pressed anywhere in the document.
    Pressed,
    /// The pointer was released anywhere in the document.
    Released,
    /// The pointer moved over the card, to the glyph `column` whole glyphs
    /// right of and `row` whole lines below the card's top-left corner.
    Moved { column: usize, row: usize },
}

/// The cell that a move to (`column`, `row`) scratches, if any: the cell under
/// the pointer where it lies on the grid.
pub open spec fn scratched_cell(column: int, row: int) -> Option<int> {
    match pointer_cell(column, row) {
        Some(i) => if 0 <= i < AREA { Some(i) } else { None },
        None => None,
    }
}

/// The drag state and the mask after event `e` in state `s`.
pub open spec fn step(s: (DragState, Seq<bool>), e: PointerEvent) -> (DragState, Seq<bool>) {
    match e {
        PointerEvent::Pressed => (DragState::Dragging, s.1),
        PointerEvent::Released => (DragState::Idle, s.1),
        PointerEvent::Moved { column, row } => match (s.0, scratched_cell(column as int, row as int)) {
            (DragState::Dragging, Some(i)) => (s.0, s.1.update(i, true)),
            _ => s,
        },
    }
}

/// The drag state and the mask after the events `events`, in order, from `s`.
pub open spec fn run(s: (DragState, Seq<bool>), events: Seq<PointerEvent>) -> (DragState, Seq<bool>)
    decreases events.len(),
{
    if events.len() == 0 {
        s
    } else {
        run(step(s, events[0]), events.drop_first())
    }
}

/// A scratch card: the drag state and the cells scratched so far.
pub struct ScratchCard {
    drag: DragState,
    mask: ScratchMask,
}

impl View for ScratchCard {
    type V = (DragState, Seq<bool>);

    closed spec fn view(&self) -> (DragState, Seq<bool>) {
        (self.drag, self.mask@)
    }
}

impl ScratchCard {
    /// The mask holds one flag per grid cell.
    pub open spec fn wf(&self) -> bool {
        self@.1.len() == AREA
    }

    /// A card with the pointer up and no cell scratched.
    pub fn new() -> (r: ScratchCard)
        ensures
            r.wf(),
            r@ == (DragState::Idle, Seq::new(AREA as nat, |i: int| false)),
    {
        ScratchCard { drag: DragState::Idle, mask: ScratchMask::new() }
    }

    /// Handles one pointer event: a press starts a drag, a release ends it,
    /// and a move during a drag scratches the cell under the pointer when
    /// that cell lies on the grid.
    pub fn handle(&mut self, e: PointerEvent)
        requires
            old(self).wf(),
        ensures
            final(self).wf(),
            final(self)@ == step(old(self)@, e),
    {
        match e {
            PointerEvent::Pressed => {
                self.drag = DragState::Dragging;
            },
            PointerEvent::Released => {
                self.drag = DragState::Idle;
            },
            PointerEvent::Moved { column, row } => {
                if self.drag == DragState::Dragging {
                    match pointer_cell_index(column, row) {
                        Some(i) => {
                            if i < AREA {
                                self.mask.set(i);
                            }
                        },
                        None => {},
                    }
                }
            },
        }
    }

    /// The current drag state.
    pub fn drag_state(&self) -> (r: DragState)
        ensures
            r == self@.0,
    {
        self.drag
    }

    /// The cells scratched so far.
    pub fn mask(&self) -> (r: &ScratchMask)
        ensures
            r@ == self@.1,
    {
        &self.mask
    }

    /// The glyphs of one frame: the current mask composited with `message`.
    pub fn render(&self, message: &MessageTable) -> (r: Vec<char>)
        requires
            self.wf(),
            message.wf(),
        ensures
            r@ == composed(self@.1, message@),
    {
        compose(&self.mask, message)
    }
}

/// Scratching is permanent: a cell once scratched stays scratched whatever
/// pointer events follow.
pub proof fn lemma_scratch_is_permanent(
    s: (DragState, Seq<bool>),
    events: Seq<PointerEvent>,
    i: int,
)
    requires
        s.1.len() == AREA,
        0 <= i < AREA,
        s.1[i],
    ensures
        run(s, events).1.len() == AREA,
        run(s, events).1[i],
    decreases events.len(),
{
    if events.len() > 0 {
        lemma_scratch_is_permanent(step(s, events[0]), events.drop_first(), i);
    }
}

/// With the pointer up, any number of moves leaves the mask and the drag
/// state as they were.
pub proof fn lemma_idle_moves_change_nothing(s: (DragState, Seq<bool>), events: Seq<PointerEvent>)
    requires
        s.0 == DragState::Idle,
        forall|k: int| 0 <= k < events.len() ==> (#[trigger] events[k] matches PointerEvent::Moved { .. }),
    ensures
        run(s, events) == s,
    decreases events.len(),
{
    if events.len() > 0 {
        let rest = events.drop_first();
        assert forall|k: int| 0 <= k < rest.len() implies (#[trigger] rest[k] matches PointerEvent::Moved { .. }) by {
            assert(rest[k] == events[k + 1]);
        }
        lemma_idle_moves_change_nothing(step(s, events[0]), rest);
    }
}

/// A move to a position whose cell index is missing or lies beyond the grid
/// leaves the mask as it was, whatever the drag state.
pub proof fn lemma_off_grid_move_keeps_mask(s: (DragState, Seq<bool>), column: usize, row: usize)
    requires
        match pointer_cell(column as int, row as int) {
            Some(i) => !(0 <= i < AREA),
            None => true,
        },
    ensures
        step(s, PointerEvent::Moved { column, row }).1 == s.1,
{
}

} // verus!
