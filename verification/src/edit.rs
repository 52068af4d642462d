//! The cell edit protocol: format on display, parse on commit.
//!
//! Displayed text comes from the cell type's `format`; on a commit signal
//! (focus lost or an explicit trigger — not on every keystroke) the current
//! text is passed to `parse`. Text that fails to parse is silently
//! discarded: the previously displayed value is retained and no error is
//! surfaced to the user or to the storage layer. On success the parsed value
//! is returned for the caller's update callback, which is expected to hand
//! it to the storage contract's `set_row`.

use crate::cell_text::CellTextCodec;
use vstd::prelude::*;

verus! {

/// A transient edit notification from the input collaborator: the edited
/// column, the current text, and whether this is a commit (focus lost or an
/// explicit commit trigger) rather than an in-progress keystroke.
pub struct EditEvent {
    /// The index of the edited column. Starts at 0 for the first column.
    pub column: usize,
    /// The current text of the cell.
    pub text: String,
    /// True only on a commit signal; in-progress keystrokes leave it false.
    pub commit: bool,
}

/// The recognized per-column configuration surface, supplied at
/// table-definition time.
pub struct ColumnConfig {
    /// Whether the column's cells accept edits.
    pub editable: bool,
    /// Whether header clicks sort by this column.
    pub sortable: bool,
    /// An optional format string overriding the cell type's default format.
    pub format_spec: Option<String>,
    /// Whether this field is the row's identity source.
    pub key: bool,
    /// Whether this field is excluded from the visible schema entirely.
    pub skip: bool,
}

/// Render a cell value for display: with the column's configured format
/// string if one is set, else with the cell type's default format (which
/// never fails).
pub fn display_cell<V: CellTextCodec>(value: &V, config: &ColumnConfig) -> (r: Option<String>)
    requires
        value.wf(),
    ensures
        config.format_spec is None ==> (r matches Some(t) && t@ == value.spec_format()),
        config.format_spec matches Some(f) ==> match r {
            Some(t) => value.spec_format_with(f@) == Some(t@),
            None => value.spec_format_with(f@) is None,
        },
{
    match &config.format_spec {
        None => Some(value.format_text()),
        Some(f) => value.format_text_with(f.as_str()),
    }
}

/// Apply one edit event to the currently displayed value. Before a commit
/// signal, and on a column that is not editable, the value is left as it is.
/// On commit the text is parsed under the column's format; a failed parse is
/// silently discarded and the previous value retained.
pub fn commit_edit<V: CellTextCodec>(current: V, event: &EditEvent, config: &ColumnConfig) -> (v: V)
    requires
        current.wf(),
    ensures
        v.wf(),
        !(event.commit && config.editable) ==> v == current,
        (event.commit && config.editable && config.format_spec is None) ==> (match V::spec_parse(
            event.text@,
        ) {
            Some(p) => v == p,
            None => v == current,
        }),
        event.commit && config.editable ==> (config.format_spec matches Some(f) ==> (match V::spec_parse_with(
            event.text@,
            f@,
        ) {
            Some(p) => v == p,
            None => v == current,
        })),
{
    if !event.commit || !config.editable {
        return current;
    }
    let parsed = match &config.format_spec {
        None => V::parse_text(event.text.as_str()),
        Some(f) => V::parse_text_with(event.text.as_str(), f.as_str()),
    };
    match parsed {
        Some(p) => p,
        None => current,
    }
}

} // verus!
