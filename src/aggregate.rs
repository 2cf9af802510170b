//! The Aggregator: builds the run's header once, filters each document's rows
//! into records tagged with the document's provenance value, and renders the
//! combined output.
use vstd::prelude::*;
use vstd::string::StrSliceExecFns;
use vstd::string::StringExecFns;
use crate::cell::Cell;
use crate::locator::{RowRole, TableLocator, role_at, state_before};
use crate::text::{format_header, join_line, joined, normalized, push_char};

verus! {

/// The main header text at column `i`, forward-filled from the nearest
/// non-empty text to its left.
pub open spec fn filled_main(main: Seq<Cell>, i: int) -> Seq<char>
    decreases i + 1,
{
    if i < 0 || i >= main.len() {
        Seq::empty()
    } else if main[i].text().len() > 0 {
        main[i].text()
    } else {
        filled_main(main, i - 1)
    }
}

/// The sub-header text at column `i`; empty past the end of the sub-row.
pub open spec fn sub_text(sub: Seq<Cell>, i: int) -> Seq<char> {
    if 0 <= i < sub.len() {
        sub[i].text()
    } else {
        Seq::empty()
    }
}

/// The composite field name of column `i`.
pub open spec fn composite_field(main: Seq<Cell>, sub: Seq<Cell>, i: int) -> Seq<char> {
    let m = normalized(filled_main(main, i));
    let s = sub_text(sub, i);
    if s.len() == 0 {
        m
    } else {
        m.push('_') + normalized(s)
    }
}

/// The composite header of a header-start row and its sub-row, one field per
/// column of the header-start row.
pub open spec fn composite_header(main: Seq<Cell>, sub: Seq<Cell>) -> Seq<Seq<char>> {
    Seq::new(main.len(), |i: int| composite_field(main, sub, i))
}

/// The header record: the composite header and the provenance column's label.
pub open spec fn header_record(main: Seq<Cell>, sub: Seq<Cell>) -> Seq<Seq<char>> {
    composite_header(main, sub).push("date"@)
}

/// The row after the header-start row at `i`; empty where there is none.
pub open spec fn sub_row(rows: Seq<Vec<Cell>>, i: int) -> Seq<Cell> {
    if i + 1 < rows.len() {
        rows[i + 1]@
    } else {
        Seq::empty()
    }
}

/// A document's provenance value: the text of the cell at row 1, column 0.
pub open spec fn provenance(rows: Seq<Vec<Cell>>) -> Seq<char> {
    if rows.len() > 1 && rows[1]@.len() > 0 {
        rows[1]@[0].text()
    } else {
        Seq::empty()
    }
}

/// A data record: the row's display texts, then the provenance value.
pub open spec fn data_record(row: Seq<Cell>, prov: Seq<char>) -> Seq<Seq<char>> {
    Seq::new(row.len(), |k: int| row[k].display()).push(prov)
}

/// What the first `n` rows of a document emit, and whether the run has a
/// header afterwards, given whether it had one before.
pub open spec fn document_output(rows: Seq<Vec<Cell>>, header_set: bool, n: int) -> (bool, Seq<Seq<Seq<char>>>)
    decreases n,
{
    if n <= 0 {
        (header_set, Seq::empty())
    } else {
        let (hs, out) = document_output(rows, header_set, n - 1);
        let role = role_at(rows, n - 1);
        if role == RowRole::HeaderStart && !hs {
            (true, out.push(header_record(rows[n - 1]@, sub_row(rows, n - 1))))
        } else if role == RowRole::Data {
            (hs, out.push(data_record(rows[n - 1]@, provenance(rows))))
        } else {
            (hs, out)
        }
    }
}

/// What a whole document emits, given whether the run already has a header.
pub open spec fn document_records(rows: Seq<Vec<Cell>>, header_set: bool) -> (bool, Seq<Seq<Seq<char>>>) {
    document_output(rows, header_set, rows.len() as int)
}

/// What the first `n` documents of a run emit, and whether a header was found;
/// a document that could not be decoded (`None`) emits nothing.
pub open spec fn run_output(docs: Seq<Option<Vec<Vec<Cell>>>>, n: int) -> (bool, Seq<Seq<Seq<char>>>)
    decreases n,
{
    if n <= 0 {
        (false, Seq::empty())
    } else {
        let (hs, out) = run_output(docs, n - 1);
        match docs[n - 1] {
            None => (hs, out),
            Some(rows) => {
                let (hs2, more) = document_records(rows@, hs);
                (hs2, out + more)
            },
        }
    }
}

/// All records of a run, in document order.
pub open spec fn aggregated(docs: Seq<Option<Vec<Vec<Cell>>>>) -> Seq<Seq<Seq<char>>> {
    run_output(docs, docs.len() as int).1
}

/// The output text: one comma-joined, newline-terminated line per record.
pub open spec fn rendered(records: Seq<Seq<Seq<char>>>) -> Seq<char>
    decreases records.len(),
{
    if records.len() == 0 {
        Seq::empty()
    } else {
        rendered(records.drop_last()) + joined(records.last()).push('\n')
    }
}

/// Builds the header record from a header-start row and its sub-row.
pub fn build_header(main: &Vec<Cell>, sub: &Vec<Cell>) -> (r: Vec<String>)
    ensures
        r.deep_view() == header_record(main@, sub@),
{
    let mut r: Vec<String> = Vec::new();
    let mut prev = String::new();
    let mut i: usize = 0;
    while i < main.len()
        invariant
            i <= main@.len(),
            prev@ == filled_main(main@, i - 1),
            r.deep_view() =~= Seq::new(i as nat, |k: int| composite_field(main@, sub@, k)),
        decreases main@.len() - i,
    {
        let t = main[i].text_str();
        if t.unicode_len() > 0 {
            prev = String::from_str(t);
        }
        let m = format_header(prev.clone());
        let s = if i < sub.len() {
            sub[i].text_str()
        } else {
            ""
        };
        let field = if s.unicode_len() > 0 {
            let mut f = m;
            push_char(&mut f, '_');
            let n = format_header(String::from_str(s));
            f.append(n.as_str());
            f
        } else {
            m
        };
        proof {
            reveal_strlit("");
            assert(prev@ == filled_main(main@, i as int));
            assert(s@ == sub_text(sub@, i as int));
            assert(field@ == composite_field(main@, sub@, i as int));
        }
        let ghost before = r.deep_view();
        r.push(field);
        proof {
            assert(r.deep_view() =~= before.push(field@));
        }
        i += 1;
    }
    r.push(String::from_str("date"));
    r
}

/// The record of one data row.
fn build_data_record(row: &Vec<Cell>, prov: &String) -> (r: Vec<String>)
    ensures
        r.deep_view() == data_record(row@, prov@),
{
    let mut r: Vec<String> = Vec::new();
    let mut k: usize = 0;
    while k < row.len()
        invariant
            k <= row@.len(),
            r.deep_view() =~= Seq::new(k as nat, |j: int| row@[j].display()),
        decreases row@.len() - k,
    {
        let ghost before = r.deep_view();
        let f = String::from_str(row[k].display_str());
        r.push(f);
        proof {
            assert(r.deep_view() =~= before.push(f@));
        }
        k += 1;
    }
    r.push(prov.clone());
    proof {
        assert(r.deep_view() =~= data_record(row@, prov@));
    }
    r
}

/// A document's provenance value.
pub fn provenance_of(rows: &Vec<Vec<Cell>>) -> (r: String)
    ensures
        r@ == provenance(rows@),
{
    if rows.len() > 1 && rows[1].len() > 0 {
        String::from_str(rows[1][0].text_str())
    } else {
        String::new()
    }
}

/// The run-wide state: whether the header has been emitted.
pub struct Aggregator {
    pub header_set: bool,
}

impl Aggregator {
    /// A run that has emitted nothing yet.
    pub fn new() -> (r: Aggregator)
        ensures
            !r.header_set,
    {
        Aggregator { header_set: false }
    }

    /// Scans one document and returns the records it emits: the run's header
    /// record first, if this document is the first to have a header-start row,
    /// then its data records in row order.
    pub fn process_document(&mut self, rows: &Vec<Vec<Cell>>) -> (out: Vec<Vec<String>>)
        ensures
            (final(self).header_set, out.deep_view()) == document_records(rows@, old(self).header_set),
    {
        let ghost hs0 = self.header_set;
        let prov = provenance_of(rows);
        let mut loc = TableLocator::new();
        let mut out: Vec<Vec<String>> = Vec::new();
        let mut i: usize = 0;
        while i < rows.len()
            invariant
                i <= rows@.len(),
                loc == state_before(rows@, i as int),
                prov@ == provenance(rows@),
                (self.header_set, out.deep_view()) == document_output(rows@, hs0, i as int),
            decreases rows@.len() - i,
        {
            let empty = Cell::Empty;
            let row = &rows[i];
            let first = if row.len() > 0 {
                &row[0]
            } else {
                &empty
            };
            let role = loc.classify(i, first);
            let ghost before = out.deep_view();
            if role == RowRole::HeaderStart && !self.header_set {
                let header = if i + 1 < rows.len() {
                    build_header(row, &rows[i + 1])
                } else {
                    build_header(row, &Vec::new())
                };
                out.push(header);
                self.header_set = true;
                proof {
                    assert(out.deep_view() =~= before.push(header_record(rows@[i as int]@, sub_row(rows@, i as int))));
                }
            } else if role == RowRole::Data {
                let rec = build_data_record(row, &prov);
                out.push(rec);
                proof {
                    assert(out.deep_view() =~= before.push(data_record(rows@[i as int]@, provenance(rows@))));
                }
            }
            i += 1;
        }
        out
    }
}

/// Runs the extraction over documents in order; `None` stands for a document
/// that could not be decoded, which is skipped.
pub fn aggregate(docs: &Vec<Option<Vec<Vec<Cell>>>>) -> (r: Vec<Vec<String>>)
    ensures
        r.deep_view() == aggregated(docs@),
{
    let mut agg = Aggregator::new();
    let mut r: Vec<Vec<String>> = Vec::new();
    let mut d: usize = 0;
    while d < docs.len()
        invariant
            d <= docs@.len(),
            (agg.header_set, r.deep_view()) == run_output(docs@, d as int),
        decreases docs@.len() - d,
    {
        match &docs[d] {
            Some(rows) => {
                let ghost before = r.deep_view();
                let mut more = agg.process_document(rows);
                let ghost added = more.deep_view();
                r.append(&mut more);
                proof {
                    assert(r.deep_view() =~= before + added);
                }
            },
            None => {},
        }
        d += 1;
    }
    r
}

/// Renders records as output text: fields joined by commas, one line each.
pub fn render(records: &Vec<Vec<String>>) -> (r: String)
    ensures
        r@ == rendered(records.deep_view()),
{
    let mut r = String::new();
    let mut i: usize = 0;
    while i < records.len()
        invariant
            i <= records@.len(),
            r@ == rendered(records.deep_view().subrange(0, i as int)),
        decreases records@.len() - i,
    {
        let line = join_line(&records[i]);
        r.append(line.as_str());
        push_char(&mut r, '\n');
        proof {
            let s = records.deep_view().subrange(0, i + 1);
            assert(s.drop_last() =~= records.deep_view().subrange(0, i as int));
        }
        i += 1;
    }
    proof {
        assert(records.deep_view().subrange(0, records@.len() as int) =~= records.deep_view());
    }
    r
}

} // verus!
