//! The two markers that players place on the board.

use vstd::prelude::*;

verus! {

/// The symbol a player places in a cell.
#[derive(Clone, Copy, Debug, PartialEq, Eq, Structural)]
pub enum Marker {
    X,
    O,
}

/// What one cell of the board holds: nothing, or a player's marker.
pub type Cell = Option<Marker>;

/// The text that stands for a marker: one letter.
pub open spec fn marker_text(marker: Marker) -> Seq<char> {
    match marker {
        Marker::X => seq!['X'],
        Marker::O => seq!['O'],
    }
}

/// The text that stands for a cell: nothing for an empty one, else the
/// marker's letter.
pub open spec fn cell_text(cell: Cell) -> Seq<char> {
    match cell {
        None => Seq::empty(),
        Some(marker) => marker_text(marker),
    }
}

impl Marker {
    /// The marker's letter, "X" or "O".
    pub fn text(self) -> (text: String)
        ensures
            text@ == marker_text(self),
    {
        proof {
            reveal_strlit("X");
            reveal_strlit("O");
        }
        let text = match self {
            Marker::X => "X".to_string(),
            Marker::O => "O".to_string(),
        };
        assert(text@ =~= marker_text(self));
        text
    }

    /// The marker of the other player.
    pub open spec fn other(self) -> Marker {
        match self {
            Marker::X => Marker::O,
            Marker::O => Marker::X,
        }
    }

    /// The marker of the other player.
    pub fn opponent(self) -> (m: Marker)
        ensures
            m == self.other(),
    {
        match self {
            Marker::X => Marker::O,
            Marker::O => Marker::X,
        }
    }
}

/// The text of a cell: the empty string, "X" or "O".
pub fn text_of_cell(cell: Cell) -> (text: String)
    ensures
        text@ == cell_text(cell),
{
    match cell {
        None => String::new(),
        Some(marker) => marker.text(),
    }
}

} // verus!
