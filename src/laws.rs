//! Properties of the extraction, stated over the scan's closed forms.
use vstd::prelude::*;
use crate::aggregate::{aggregated, document_output, document_records, rendered};
use crate::cell::{Cell, first_cell};
use crate::locator::{RowRole, end_id, remarks_id, role_at, start_id, state_before, step};

verus! {

/// The first index below `n` at which `p` holds.
pub open spec fn first_index(p: spec_fn(int) -> bool, n: int) -> Option<int>
    decreases n,
{
    if n <= 0 {
        None
    } else {
        match first_index(p, n - 1) {
            Some(k) => Some(k),
            None => if p(n - 1) {
                Some(n - 1)
            } else {
                None
            },
        }
    }
}

/// Rows whose first cell reads `lit`.
pub open spec fn reads_at(rows: Seq<Vec<Cell>>, lit: Seq<char>) -> spec_fn(int) -> bool {
    |k: int| first_cell(rows[k]@).reads(lit)
}

/// The index of the first header-start row.
pub open spec fn header_start_row(rows: Seq<Vec<Cell>>) -> Option<int> {
    first_index(reads_at(rows, start_id()), rows.len() as int)
}

/// The index of the first terminator row.
pub open spec fn terminator_row(rows: Seq<Vec<Cell>>) -> Option<int> {
    first_index(reads_at(rows, end_id()), rows.len() as int)
}

/// Whether `k` is the header-sub-row: the row after the first header-start row.
pub open spec fn is_sub_row(rows: Seq<Vec<Cell>>, k: int) -> bool {
    header_start_row(rows) is Some && k == header_start_row(rows)->0 + 1
}

/// Rows that can be the remarks-start row: those that read the remarks
/// sentinel, but for the header-sub-row.
pub open spec fn remarks_candidate(rows: Seq<Vec<Cell>>) -> spec_fn(int) -> bool {
    |k: int| first_cell(rows[k]@).reads(remarks_id()) && !is_sub_row(rows, k)
}

/// The index of the designated remarks-start row.
pub open spec fn remarks_start_row(rows: Seq<Vec<Cell>>) -> Option<int> {
    first_index(remarks_candidate(rows), rows.len() as int)
}

proof fn lemma_first_index(p: spec_fn(int) -> bool, n: int)
    ensures
        first_index(p, n) is Some ==> {
            let h = first_index(p, n)->0;
            &&& 0 <= h < n
            &&& p(h)
            &&& forall|k: int| 0 <= k < h ==> !#[trigger] p(k)
        },
        first_index(p, n) is None ==> forall|k: int| 0 <= k < n ==> !#[trigger] p(k),
    decreases n,
{
    if n > 0 {
        lemma_first_index(p, n - 1);
    }
}

/// Of two prefixes, the shorter has the same first index if it is in range.
proof fn lemma_first_index_prefix(p: spec_fn(int) -> bool, m: int, n: int)
    requires
        0 <= m <= n,
    ensures
        match first_index(p, n) {
            Some(h) => if h < m {
                first_index(p, m) == Some(h)
            } else {
                first_index(p, m) is None
            },
            None => first_index(p, m) is None,
        },
{
    lemma_first_index(p, n);
    lemma_first_index(p, m);
}

proof fn lemma_sentinels_differ()
    ensures
        start_id() != end_id(),
        start_id() != remarks_id(),
        end_id() != remarks_id(),
{
    reveal_strlit("Hole Number");
    reveal_strlit("Sub-Totals");
    reveal_strlit("Remarks");
    assert(start_id().len() != end_id().len());
    assert(start_id().len() != remarks_id().len());
    assert(end_id().len() != remarks_id().len());
}

/// The scan state after `n` rows, in closed form.
proof fn lemma_state_before(rows: Seq<Vec<Cell>>, n: int)
    requires
        0 <= n <= rows.len(),
        rows.len() < usize::MAX,
    ensures
        ({
            let st = state_before(rows, n);
            &&& match first_index(reads_at(rows, start_id()), n) {
                Some(h) => st.header_row == Some((h + 1) as usize),
                None => st.header_row is None,
            }
            &&& match first_index(reads_at(rows, end_id()), n) {
                Some(t) => st.table_end_row == Some(t as usize),
                None => st.table_end_row is None,
            }
            &&& match first_index(remarks_candidate(rows), n) {
                Some(k) => st.remarks_row == Some(k as usize),
                None => st.remarks_row is None,
            }
        }),
    decreases n,
{
    if n > 0 {
        let i = n - 1;
        lemma_state_before(rows, i);
        lemma_sentinels_differ();
        let c = first_cell(rows[i]@);
        let st = state_before(rows, i);
        assert(state_before(rows, n) == step(st, i, c).0);
        lemma_first_index_prefix(reads_at(rows, start_id()), i, rows.len() as int);
        lemma_first_index(reads_at(rows, start_id()), i);
        lemma_first_index(reads_at(rows, start_id()), rows.len() as int);
        if c.reads(remarks_id()) && !c.reads(start_id()) && !c.reads(end_id())
            && st.header_row is Some && i <= st.header_row->0 {
            assert(is_sub_row(rows, i));
        }
        if c.reads(remarks_id()) && is_sub_row(rows, i) {
            assert(first_index(reads_at(rows, start_id()), i) is Some);
        }
    }
}

/// A document with no header-start row emits nothing and leaves the run's
/// header as it was.
pub proof fn headerless_document_emits_nothing(rows: Seq<Vec<Cell>>, header_set: bool)
    requires
        rows.len() < usize::MAX,
        forall|i: int| 0 <= i < rows.len() ==> !first_cell(#[trigger] rows[i]@).reads(start_id()),
    ensures
        document_records(rows, header_set) == (header_set, Seq::<Seq<Seq<char>>>::empty()),
{
    lemma_headerless_prefix(rows, header_set, rows.len() as int);
}

proof fn lemma_headerless_prefix(rows: Seq<Vec<Cell>>, header_set: bool, n: int)
    requires
        0 <= n <= rows.len(),
        rows.len() < usize::MAX,
        forall|i: int| 0 <= i < rows.len() ==> !first_cell(#[trigger] rows[i]@).reads(start_id()),
    ensures
        document_output(rows, header_set, n) == (header_set, Seq::<Seq<Seq<char>>>::empty()),
    decreases n,
{
    if n > 0 {
        lemma_headerless_prefix(rows, header_set, n - 1);
        lemma_state_before(rows, n - 1);
        lemma_first_index(reads_at(rows, start_id()), n - 1);
        assert(!first_cell(rows[n - 1]@).reads(start_id()));
        assert(first_index(reads_at(rows, start_id()), n - 1) is None);
        assert(role_at(rows, n - 1) != RowRole::Data);
        assert(role_at(rows, n - 1) != RowRole::HeaderStart);
    }
}

/// A row that is not itself a header-start row is emitted as data exactly when
/// it lies after the header-sub-row and before the terminator row, its first
/// cell is not empty, and it is not the remarks-start row.
pub proof fn data_row_criterion(rows: Seq<Vec<Cell>>, i: int)
    requires
        0 <= i < rows.len(),
        rows.len() < usize::MAX,
        !first_cell(rows[i]@).reads(start_id()),
    ensures
        (role_at(rows, i) == RowRole::Data) == {
            &&& header_start_row(rows) is Some
            &&& header_start_row(rows)->0 + 1 < i
            &&& (terminator_row(rows) is None || i < terminator_row(rows)->0)
            &&& !(first_cell(rows[i]@) is Empty)
            &&& remarks_start_row(rows) != Some(i)
        },
{
    let len = rows.len() as int;
    lemma_state_before(rows, i);
    lemma_sentinels_differ();
    lemma_first_index_prefix(reads_at(rows, start_id()), i, len);
    lemma_first_index_prefix(reads_at(rows, end_id()), i, len);
    lemma_first_index_prefix(remarks_candidate(rows), i, len);
    lemma_first_index(reads_at(rows, end_id()), len);
    lemma_first_index(remarks_candidate(rows), len);
    lemma_first_index(remarks_candidate(rows), i + 1);
    lemma_first_index_prefix(remarks_candidate(rows), i + 1, len);
    let c = first_cell(rows[i]@);
    let st = state_before(rows, i);
    let ps = reads_at(rows, start_id());
    let pe = reads_at(rows, end_id());
    let pr = remarks_candidate(rows);
    lemma_first_index(ps, len);
    assert(role_at(rows, i) == step(st, i, c).1);
    assert(pe(i) == c.reads(end_id()));
    // The header-sub-row bound as the scan holds it at row `i`.
    if header_start_row(rows) is Some && header_start_row(rows)->0 < i {
        assert(first_index(ps, i) == header_start_row(rows));
        assert(st.header_row == Some((header_start_row(rows)->0 + 1) as usize));
        assert(st.header_row->0 == header_start_row(rows)->0 + 1);
    } else {
        assert(first_index(ps, i) is None);
        assert(st.header_row is None);
    }
    // The terminator bound.
    if terminator_row(rows) is Some && terminator_row(rows)->0 < i {
        assert(first_index(pe, i) == terminator_row(rows));
        assert(st.table_end_row is Some);
    } else {
        assert(first_index(pe, i) is None);
        assert(st.table_end_row is None);
    }
    if c.reads(end_id()) {
        assert(terminator_row(rows) is Some && terminator_row(rows)->0 <= i);
    }
    // The remarks bound.
    if remarks_start_row(rows) is Some && remarks_start_row(rows)->0 < i {
        assert(first_index(pr, i) == remarks_start_row(rows));
        assert(st.remarks_row is Some);
    } else {
        assert(first_index(pr, i) is None);
        assert(st.remarks_row is None);
    }
    if remarks_start_row(rows) == Some(i) {
        assert(pr(i));
        assert(c.reads(remarks_id()));
    }
    if st.remarks_row is None && c.reads(remarks_id()) && header_start_row(rows) is Some
        && header_start_row(rows)->0 + 1 < i {
        assert(!is_sub_row(rows, i));
        assert(pr(i));
        assert(first_index(pr, i + 1) == Some(i));
        assert(remarks_start_row(rows) == Some(i));
    }
}

/// The output is a function of the documents: two runs over the same documents
/// render the same text.
pub proof fn repeated_run_same_output(
    a: Seq<Option<Vec<Vec<Cell>>>>,
    b: Seq<Option<Vec<Vec<Cell>>>>,
)
    requires
        a == b,
    ensures
        rendered(aggregated(a)) == rendered(aggregated(b)),
{
}

} // verus!
