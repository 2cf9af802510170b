//! Decoded spreadsheet cells, as the extraction logic reads them.
use vstd::prelude::*;

verus! {

/// One decoded cell.
pub enum Cell {
    /// A cell that holds nothing.
    Empty,
    /// A cell with a textual reading (text, or a number written out); its
    /// display text is the same.
    Text(String),
    /// Any other value (a boolean, a date, an error), by its display text.
    Other(String),
}

impl Cell {
    /// The cell's textual reading; empty where it has none.
    pub open spec fn text(self) -> Seq<char> {
        match self {
            Cell::Text(s) => s@,
            _ => Seq::empty(),
        }
    }

    /// The cell as it is written to the output.
    pub open spec fn display(self) -> Seq<char> {
        match self {
            Cell::Empty => Seq::empty(),
            Cell::Text(s) => s@,
            Cell::Other(s) => s@,
        }
    }

    /// Whether the cell has a textual reading equal to `lit`.
    pub open spec fn reads(self, lit: Seq<char>) -> bool {
        self is Text && self.text() == lit
    }

    /// The textual reading, or an empty text.
    pub fn text_str(&self) -> (r: &str)
        ensures
            r@ == self.text(),
    {
        proof {
            reveal_strlit("");
        }
        match self {
            Cell::Text(s) => s.as_str(),
            _ => "",
        }
    }

    /// The display text.
    pub fn display_str(&self) -> (r: &str)
        ensures
            r@ == self.display(),
    {
        proof {
            reveal_strlit("");
        }
        match self {
            Cell::Empty => "",
            Cell::Text(s) => s.as_str(),
            Cell::Other(s) => s.as_str(),
        }
    }

    /// Whether the cell holds nothing.
    pub fn is_empty(&self) -> (r: bool)
        ensures
            r == (*self is Empty),
    {
        match self {
            Cell::Empty => true,
            _ => false,
        }
    }
}

/// The first cell of a row; a missing one reads as empty.
pub open spec fn first_cell(row: Seq<Cell>) -> Cell {
    if row.len() > 0 {
        row[0]
    } else {
        Cell::Empty
    }
}

} // verus!
