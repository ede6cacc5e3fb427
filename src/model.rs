//! The timesheet description: header fields, entries, column templates and
//! the geometry of the entry box. Lengths and numbers are fixed-point values
//! counting millionths of a unit.
use vstd::prelude::*;
use crate::date::CalendarDate;
use crate::number::SCALE;

verus! {

/// What a header field shows.
#[derive(Debug, PartialEq, Eq)]
pub enum TimesheetData {
    /// The date of the run, as `MM/DD/YYYY`.
    Date,
    /// This text, verbatim.
    Str(String),
}

/// A header field drawn at a fixed point of the page.
#[derive(Debug, PartialEq, Eq)]
pub struct TimesheetPositionalData {
    /// The field's name, for messages only (`name`, `address`).
    pub data_name: String,
    pub data_value: TimesheetData,
    pub pos: (i64, i64),
    pub font_size: i64,
}

/// A value of an entry: text, or a fixed-point number.
#[derive(Debug, PartialEq, Eq)]
pub enum EntryValue {
    Str(String),
    Number(i64),
}

/// One named value of an entry.
#[derive(Debug, PartialEq, Eq)]
pub struct EntryField {
    pub name: String,
    pub value: EntryValue,
}

/// Where a column of the entry table starts on the page.
#[derive(Debug, PartialEq, Eq)]
pub struct ColumnStart {
    pub name: String,
    pub x: i64,
}

/// The template that renders a column of the entry table.
#[derive(Debug, PartialEq, Eq)]
pub struct ColumnFormat {
    pub name: String,
    pub template: String,
}

/// The box that holds the entry table, one row per entry and a totals row.
#[derive(Debug, PartialEq, Eq)]
pub struct TimesheetEntryPositionalData {
    pub box_top: (i64, i64),
    pub box_bottom: (i64, i64),
    pub entry_starts: Vec<ColumnStart>,
    /// Space left below each row.
    pub row_padding: i64,
    /// The largest font size the table may use.
    pub max_font_size: i64,
}

impl TimesheetEntryPositionalData {
    /// The box has a positive height, the padding is not negative and the
    /// largest font size is positive.
    pub open spec fn wf(&self) -> bool {
        self.box_bottom.1 > self.box_top.1 && self.row_padding >= 0 && self.max_font_size > 0
    }
}

/// The largest font size of the entry table when none is given: 12.
pub fn max_font_size() -> (r: i64)
    ensures
        r == 12 * SCALE,
{
    12 * SCALE
}

/// Everything drawn onto the template page.
#[derive(Debug, PartialEq, Eq)]
pub struct Timesheet {
    pub pos_data: Vec<TimesheetPositionalData>,
    /// The entries in table order, each a list of named values with distinct
    /// names.
    pub entries: Vec<Vec<EntryField>>,
    /// Column templates, in the order in which the columns are drawn.
    pub entry_format: Vec<ColumnFormat>,
    pub entry_pos_data: TimesheetEntryPositionalData,
}

/// A typed record of one worked day.
#[derive(Debug, PartialEq, Eq)]
pub struct TimesheetEntries {
    pub date: CalendarDate,
    pub hours: i64,
    pub description: String,
    pub rate: i64,
}

} // verus!
