use oxide::aggregate::{aggregate, build_header, provenance_of, render, Aggregator};
use oxide::cell::Cell;
use oxide::locator::{classify_rows, RowRole, TableLocator};
use oxide::text::{format_header, join_line, text_equals, underscore_separators};

fn t(s: &str) -> Cell {
    Cell::Text(s.to_string())
}

fn row(cells: &[&str]) -> Vec<Cell> {
    cells.iter().map(|s| if s.is_empty() { Cell::Empty } else { t(s) }).collect()
}

fn strings(v: &[&str]) -> Vec<String> {
    v.iter().map(|s| s.to_string()).collect()
}

/// A document laid out with a title row, the provenance cell at row 1, the
/// header-start row, the sub-row, the data rows and the terminator.
fn document(date: &str, data: &[&[&str]]) -> Vec<Vec<Cell>> {
    let mut rows = vec![row(&["Drill Report"]), row(&[date]), row(&["Hole Number", "Depth"]), row(&["", ""])];
    for d in data {
        rows.push(row(d));
    }
    rows.push(row(&["Sub-Totals"]));
    rows
}

#[test]
fn header_forward_fill() {
    let main = row(&["A", "", "B"]);
    let sub = row(&["x", "y", ""]);
    assert_eq!(build_header(&main, &sub), strings(&["a_x", "a_y", "b", "date"]));
}

#[test]
fn header_without_sub_row() {
    let main = row(&["Hole Number", "", "Dip-Angle"]);
    assert_eq!(build_header(&main, &Vec::new()), strings(&["hole_number", "hole_number", "dip_angle", "date"]));
}

#[test]
fn normalize_keeps_each_separator() {
    assert_eq!(format_header("Depth (m)".to_string()), "depth_(m)");
    assert_eq!(format_header("Hole  Depth-Total\n".to_string()), "hole__depth_total");
    assert_eq!(format_header("  MIXED Case  ".to_string()), "mixed_case");
    assert_eq!(format_header(String::new()), "");
}

#[test]
fn underscores_replace_separators_only() {
    assert_eq!(underscore_separators("a b-c\nd_e"), "a_b_c_d_e");
    assert_eq!(underscore_separators("  "), "__");
    assert_eq!(underscore_separators(""), "");
}

#[test]
fn exact_text_comparison() {
    assert!(text_equals("Hole Number", "Hole Number"));
    assert!(!text_equals("Hole Number ", "Hole Number"));
    assert!(!text_equals("hole number", "Hole Number"));
    assert!(text_equals("", ""));
}

#[test]
fn join_with_commas() {
    assert_eq!(join_line(&strings(&["a", "", "c"])), "a,,c");
    assert_eq!(join_line(&strings(&["only"])), "only");
    assert_eq!(join_line(&Vec::new()), "");
}

#[test]
fn two_documents_end_to_end() {
    let a = document("2024-01-01", &[&["H1", "12.3"]]);
    let b = document("2024-01-02", &[&["H2", "9.8"]]);
    let records = aggregate(&vec![Some(a), Some(b)]);
    assert_eq!(render(&records), "hole_number,depth,date\nH1,12.3,2024-01-01\nH2,9.8,2024-01-02\n");
}

#[test]
fn headerless_document_emits_nothing() {
    let rows = vec![row(&["Notes"]), row(&["2024-03-01"]), row(&["H9", "1.0"]), row(&["Sub-Totals"])];
    let mut agg = Aggregator::new();
    assert!(agg.process_document(&rows).is_empty());
    assert!(!agg.header_set);
    let later = document("2024-03-02", &[&["H3", "4.5"]]);
    let records = aggregate(&vec![Some(rows), Some(later)]);
    assert_eq!(render(&records), "hole_number,depth,date\nH3,4.5,2024-03-02\n");
}

#[test]
fn only_first_header_is_kept() {
    let mut b = document("2024-01-02", &[&["H2", "9.8"]]);
    b[2] = row(&["Hole Number", "Other"]);
    let a = document("2024-01-01", &[&["H1", "12.3"]]);
    let records = aggregate(&vec![Some(a), Some(b)]);
    assert_eq!(render(&records), "hole_number,depth,date\nH1,12.3,2024-01-01\nH2,9.8,2024-01-02\n");
}

#[test]
fn undecodable_document_is_skipped() {
    let a = document("2024-01-01", &[&["H1", "12.3"]]);
    let records = aggregate(&vec![None, Some(a), None]);
    assert_eq!(render(&records), "hole_number,depth,date\nH1,12.3,2024-01-01\n");
    assert!(aggregate(&Vec::new()).is_empty());
}

#[test]
fn data_rows_are_bounded() {
    let rows = vec![
        row(&["Title"]),
        row(&["2024-05-05"]),
        row(&["H0", "before"]),
        row(&["Hole Number", "Depth"]),
        row(&["", "m"]),
        row(&["H1", "1"]),
        row(&["", "blank lead"]),
        row(&["H2", "2"]),
        row(&["Sub-Totals", "3"]),
        row(&["H3", "after"]),
    ];
    let roles = classify_rows(&rows);
    assert_eq!(
        roles,
        vec![
            RowRole::Skipped,
            RowRole::Skipped,
            RowRole::Skipped,
            RowRole::HeaderStart,
            RowRole::Context,
            RowRole::Data,
            RowRole::Skipped,
            RowRole::Data,
            RowRole::Terminator,
            RowRole::Skipped,
        ]
    );
    let records = aggregate(&vec![Some(rows)]);
    assert_eq!(render(&records), "hole_number,depth_m,date\nH1,1,2024-05-05\nH2,2,2024-05-05\n");
}

#[test]
fn remarks_row_excluded_but_not_what_follows() {
    let rows = document("2024-06-06", &[&["H1", "1"], &["Remarks", "none"], &["H2", "2"], &["Remarks", "again"]]);
    let records = aggregate(&vec![Some(rows)]);
    assert_eq!(
        render(&records),
        "hole_number,depth,date\nH1,1,2024-06-06\nH2,2,2024-06-06\nRemarks,again,2024-06-06\n"
    );
}

#[test]
fn remarks_before_header_takes_the_mark() {
    let rows = vec![
        row(&["Remarks"]),
        row(&["2024-07-07"]),
        row(&["Hole Number", "Depth"]),
        row(&["", ""]),
        row(&["Remarks", "x"]),
        row(&["Sub-Totals"]),
    ];
    let roles = classify_rows(&rows);
    assert_eq!(roles[0], RowRole::RemarksStart);
    assert_eq!(roles[4], RowRole::Data);
}

#[test]
fn display_text_of_cells() {
    let rows = vec![
        row(&["Hole Number", "Flag", "Gap"]),
        row(&["", "", ""]),
        vec![t("H1"), Cell::Other("true".to_string()), Cell::Empty],
        row(&["Sub-Totals"]),
    ];
    let records = aggregate(&vec![Some(rows)]);
    assert_eq!(render(&records), "hole_number,flag,gap,date\nH1,true,,\n");
}

#[test]
fn provenance_reads_row_one_column_zero() {
    let rows = document("2024-08-08", &[]);
    assert_eq!(provenance_of(&rows), "2024-08-08");
    let other = vec![row(&["x"]), vec![Cell::Other("2024-01-01T00:00".to_string())]];
    assert_eq!(provenance_of(&other), "");
    assert_eq!(provenance_of(&vec![row(&["x"])]), "");
}

#[test]
fn repeated_runs_render_identically() {
    let docs = vec![Some(document("2024-01-01", &[&["H1", "12.3"]])), None, Some(document("2024-01-02", &[&["H2", "9.8"]]))];
    assert_eq!(render(&aggregate(&docs)), render(&aggregate(&docs)));
}

#[test]
fn locator_records_bounds_once() {
    let mut loc = TableLocator::new();
    assert_eq!(loc.classify(0, &t("Hole Number")), RowRole::HeaderStart);
    assert_eq!(loc.header_row, Some(1));
    assert_eq!(loc.classify(1, &Cell::Empty), RowRole::Context);
    assert_eq!(loc.classify(2, &t("Hole Number")), RowRole::HeaderStart);
    assert_eq!(loc.header_row, Some(1));
    assert_eq!(loc.classify(3, &t("Sub-Totals")), RowRole::Terminator);
    assert_eq!(loc.classify(4, &t("Sub-Totals")), RowRole::Terminator);
    assert_eq!(loc.table_end_row, Some(3));
    assert_eq!(loc.classify(5, &t("H1")), RowRole::Skipped);
}
