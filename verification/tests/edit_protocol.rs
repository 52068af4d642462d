use struct_table::cell_text::{CalendarDate, CellTextCodec};
use struct_table::edit::{commit_edit, display_cell, ColumnConfig, EditEvent};

fn config(editable: bool, format_spec: Option<&str>) -> ColumnConfig {
    ColumnConfig {
        editable,
        sortable: true,
        format_spec: format_spec.map(|f| f.to_string()),
        key: false,
        skip: false,
    }
}

fn event(text: &str, commit: bool) -> EditEvent {
    EditEvent { column: 0, text: text.to_string(), commit }
}

fn date(year: u16, month: u8, day: u8) -> CalendarDate {
    CalendarDate { year, month, day }
}

#[test]
fn display_uses_default_format_without_a_spec() {
    let d = date(2023, 2, 28);
    assert_eq!(display_cell(&d, &config(true, None)), Some("2023-02-28".to_string()));
}

#[test]
fn display_uses_the_configured_format() {
    let d = date(2023, 2, 28);
    assert_eq!(display_cell(&d, &config(true, Some("%d.%m.%Y"))), Some("28.02.2023".to_string()));
}

#[test]
fn commit_parses_valid_text() {
    let before = date(2023, 2, 28);
    let after = commit_edit(before, &event("2024-12-01", true), &config(true, None));
    assert_eq!(after, date(2024, 12, 1));
}

#[test]
fn failed_parse_is_silently_discarded() {
    let before = date(2023, 2, 28);
    let after = commit_edit(before, &event("2024-13-77", true), &config(true, None));
    assert_eq!(after, before);
}

#[test]
fn nothing_happens_before_the_commit_signal() {
    let before = date(2023, 2, 28);
    let after = commit_edit(before, &event("2024-12-01", false), &config(true, None));
    assert_eq!(after, before);
}

#[test]
fn a_non_editable_column_keeps_its_value() {
    let before = date(2023, 2, 28);
    let after = commit_edit(before, &event("2024-12-01", true), &config(false, None));
    assert_eq!(after, before);
}

#[test]
fn commit_honours_the_configured_format() {
    let before = date(2023, 2, 28);
    let cfg = config(true, Some("%d/%m/%Y"));
    let after = commit_edit(before, &event("01/12/2024", true), &cfg);
    assert_eq!(after, date(2024, 12, 1));
    // the same text fails under the default format and is discarded
    let kept = commit_edit(before, &event("01/12/2024", true), &config(true, None));
    assert_eq!(kept, before);
}
