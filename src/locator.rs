//! The Table Locator: classifies the rows of one document by the sentinel text
//! in their first cell.
use vstd::prelude::*;
use crate::cell::{Cell, first_cell};
use crate::text::text_equals;

verus! {

/// First cell of the header-start row.
pub const DATA_START_ID: &'static str = "Hole Number";

/// First cell of the row that ends the data.
pub const DATA_END_ID: &'static str = "Sub-Totals";

/// First cell of the row that starts the remarks.
pub const REMARKS_START_ID: &'static str = "Remarks";

pub open spec fn start_id() -> Seq<char> {
    "Hole Number"@
}

pub open spec fn end_id() -> Seq<char> {
    "Sub-Totals"@
}

pub open spec fn remarks_id() -> Seq<char> {
    "Remarks"@
}

/// The structural role of one row.
#[derive(Clone, Copy, PartialEq, Eq, Structural, Debug)]
pub enum RowRole {
    /// The main header row.
    HeaderStart,
    /// The row that ends the data.
    Terminator,
    /// A row at or before the header-sub-row.
    Context,
    /// The first remarks row.
    RemarksStart,
    /// A row emitted as data.
    Data,
    /// Any other row.
    Skipped,
}

/// Scan state of one document: the header-sub-row, the terminator row and the
/// remarks row, each once found.
#[derive(Clone, Copy, PartialEq, Eq, Structural, Debug)]
pub struct TableLocator {
    pub header_row: Option<usize>,
    pub table_end_row: Option<usize>,
    pub remarks_row: Option<usize>,
}

/// The state at the start of a document: nothing found.
pub open spec fn initial_scan() -> TableLocator {
    TableLocator { header_row: None, table_end_row: None, remarks_row: None }
}

/// One step of the scan: the row at index `i`, with first cell `c`, seen in
/// state `st`; gives the next state and the row's role.
pub open spec fn step(st: TableLocator, i: int, c: Cell) -> (TableLocator, RowRole) {
    if c.reads(start_id()) {
        let h = if st.header_row is None { Some((i + 1) as usize) } else { st.header_row };
        (TableLocator { header_row: h, ..st }, RowRole::HeaderStart)
    } else if c.reads(end_id()) {
        let e = if st.table_end_row is None { Some(i as usize) } else { st.table_end_row };
        (TableLocator { table_end_row: e, ..st }, RowRole::Terminator)
    } else if st.header_row is Some && i <= st.header_row->0 {
        (st, RowRole::Context)
    } else if st.remarks_row is None && c.reads(remarks_id()) {
        (TableLocator { remarks_row: Some(i as usize), ..st }, RowRole::RemarksStart)
    } else if st.header_row is Some && st.table_end_row is None && !(c is Empty) {
        (st, RowRole::Data)
    } else {
        (st, RowRole::Skipped)
    }
}

/// The scan state after the first `n` rows.
pub open spec fn state_before(rows: Seq<Vec<Cell>>, n: int) -> TableLocator
    decreases n,
{
    if n <= 0 {
        initial_scan()
    } else {
        step(state_before(rows, n - 1), n - 1, first_cell(rows[n - 1]@)).0
    }
}

/// The role of the row at index `i`.
pub open spec fn role_at(rows: Seq<Vec<Cell>>, i: int) -> RowRole {
    step(state_before(rows, i), i, first_cell(rows[i]@)).1
}

/// Whether the cell reads as the given sentinel.
fn reads_sentinel(c: &Cell, lit: &str) -> (r: bool)
    ensures
        r == c.reads(lit@),
{
    match c {
        Cell::Text(s) => text_equals(s.as_str(), lit),
        _ => false,
    }
}

impl TableLocator {
    /// A locator at the start of a document.
    pub fn new() -> (r: TableLocator)
        ensures
            r == initial_scan(),
    {
        TableLocator { header_row: None, table_end_row: None, remarks_row: None }
    }

    /// Classifies the row at index `idx` by its first cell, and records the
    /// bounds it sets.
    pub fn classify(&mut self, idx: usize, first: &Cell) -> (role: RowRole)
        requires
            idx < usize::MAX,
        ensures
            (*final(self), role) == step(*old(self), idx as int, *first),
    {
        proof {
            reveal_strlit("Hole Number");
            reveal_strlit("Sub-Totals");
            reveal_strlit("Remarks");
        }
        if reads_sentinel(first, DATA_START_ID) {
            if self.header_row.is_none() {
                self.header_row = Some(idx + 1);
            }
            RowRole::HeaderStart
        } else if reads_sentinel(first, DATA_END_ID) {
            if self.table_end_row.is_none() {
                self.table_end_row = Some(idx);
            }
            RowRole::Terminator
        } else if self.header_row.is_some() && idx <= self.header_row.unwrap() {
            RowRole::Context
        } else if self.remarks_row.is_none() && reads_sentinel(first, REMARKS_START_ID) {
            self.remarks_row = Some(idx);
            RowRole::RemarksStart
        } else if self.header_row.is_some() && self.table_end_row.is_none() && !first.is_empty() {
            RowRole::Data
        } else {
            RowRole::Skipped
        }
    }
}

/// Classifies every row of a document.
pub fn classify_rows(rows: &Vec<Vec<Cell>>) -> (r: Vec<RowRole>)
    ensures
        r@.len() == rows@.len(),
        forall|i: int| 0 <= i < rows@.len() ==> r@[i] == role_at(rows@, i),
{
    let mut loc = TableLocator::new();
    let mut r: Vec<RowRole> = Vec::new();
    let mut i: usize = 0;
    while i < rows.len()
        invariant
            i <= rows@.len(),
            loc == state_before(rows@, i as int),
            r@.len() == i,
            forall|k: int| 0 <= k < i ==> r@[k] == role_at(rows@, k),
        decreases rows@.len() - i,
    {
        let empty = Cell::Empty;
        let first = if rows[i].len() > 0 { &rows[i][0] } else { &empty };
        let role = loc.classify(i, first);
        r.push(role);
        i += 1;
    }
    r
}

} // verus!
