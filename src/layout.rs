//! The entry table: font-size fitting, per-column cell text, running totals
//! and the baselines of the rows.
use vstd::prelude::*;
use vstd::string::StringExecFns;
use crate::model::{ColumnFormat, ColumnStart, EntryField, EntryValue, Timesheet, TimesheetEntryPositionalData};
use crate::number::{SCALE, decimal_text, decimal_string};
use crate::template::{Binding, TemplateError, bindings_view, engine_output, render};

verus! {

/// Why the entry table cannot be laid out.
#[derive(Debug, PartialEq, Eq)]
pub enum LayoutError {
    /// The rows do not fit the box: the fitted font size is not positive.
    LayoutOverflow,
    /// A column has a template but no start position.
    MissingColumnPosition(String),
    /// The totals row needs a template for this column.
    MissingColumnFormat(String),
    /// An entry lacks a value that the totals need.
    MissingField(String),
    /// A value that the totals need is text, not a number.
    TypeMismatch(String),
    /// The template of this column could not be resolved.
    Template(String, TemplateError),
    /// An amount or a running total does not fit in 64 bits.
    NumberOverflow,
}

/// A [`LayoutError`] as seen by contracts: the kind and the name it concerns.
pub enum LayoutFault {
    LayoutOverflow,
    MissingColumnPosition(Seq<char>),
    MissingColumnFormat(Seq<char>),
    MissingField(Seq<char>),
    TypeMismatch(Seq<char>),
    Template(Seq<char>),
    NumberOverflow,
}

impl View for LayoutError {
    type V = LayoutFault;

    open spec fn view(&self) -> LayoutFault {
        match self {
            LayoutError::LayoutOverflow => LayoutFault::LayoutOverflow,
            LayoutError::MissingColumnPosition(n) => LayoutFault::MissingColumnPosition(n@),
            LayoutError::MissingColumnFormat(n) => LayoutFault::MissingColumnFormat(n@),
            LayoutError::MissingField(n) => LayoutFault::MissingField(n@),
            LayoutError::TypeMismatch(n) => LayoutFault::TypeMismatch(n@),
            LayoutError::Template(n, _) => LayoutFault::Template(n@),
            LayoutError::NumberOverflow => LayoutFault::NumberOverflow,
        }
    }
}

pub open spec fn fits_i64(v: int) -> bool {
    i64::MIN <= v <= i64::MAX
}

/// The single font size of the table: the box height, less one padding per
/// row, shared by the entry rows and the totals row, and at most the largest
/// font size.
pub open spec fn fitted_font_size(
    n_entries: int,
    box_top_y: int,
    box_bottom_y: int,
    row_padding: int,
    max_font_size: int,
) -> int {
    let rows = n_entries + 1;
    let line_height = (box_bottom_y - box_top_y - rows * row_padding) / rows;
    if line_height < max_font_size {
        line_height
    } else {
        max_font_size
    }
}

pub open spec fn geometry_font_size(g: TimesheetEntryPositionalData, n_entries: int) -> int {
    fitted_font_size(n_entries, g.box_top.1 as int, g.box_bottom.1 as int, g.row_padding as int, g.max_font_size as int)
}

/// The font size of a table of `n_entries` entries and a totals row in the
/// box of `geometry`; `LayoutOverflow` where that size is not positive.
pub fn entry_font_size(geometry: &TimesheetEntryPositionalData, n_entries: usize) -> (r: Result<i64, LayoutError>)
    requires
        geometry.wf(),
    ensures
        r is Ok <==> geometry_font_size(*geometry, n_entries as int) > 0,
        r matches Ok(f) ==> f == geometry_font_size(*geometry, n_entries as int),
        r matches Err(e) ==> e@ == LayoutFault::LayoutOverflow,
{
    let rows: u128 = n_entries as u128 + 1;
    let height: u128 = (geometry.box_bottom.1 as i128 - geometry.box_top.1 as i128) as u128;
    let per_row: u128 = height / rows;
    proof {
        vstd::arithmetic::div_mod::lemma_hoist_over_denominator(
            height as int,
            -(geometry.row_padding as int),
            rows as nat,
        );
        assert((-(geometry.row_padding as int)) * (rows as int) == -((rows as int) * geometry.row_padding)) by (nonlinear_arith);
        vstd::arithmetic::div_mod::lemma_div_is_ordered_by_denominator(height as int, 1, rows as int);
    }
    let line_height: i128 = per_row as i128 - geometry.row_padding as i128;
    let size: i128 = if line_height < geometry.max_font_size as i128 {
        line_height
    } else {
        geometry.max_font_size as i128
    };
    if size <= 0 {
        Err(LayoutError::LayoutOverflow)
    } else {
        Ok(size as i64)
    }
}

/// The first value named `name` at position `i` or later.
pub open spec fn field_from(fields: Seq<EntryField>, name: Seq<char>, i: int) -> Option<EntryValue>
    decreases fields.len() - i,
{
    if i < 0 || i >= fields.len() {
        None
    } else if fields[i].name@ == name {
        Some(fields[i].value)
    } else {
        field_from(fields, name, i + 1)
    }
}

/// The value named `name` in an entry.
pub open spec fn field_value(fields: Seq<EntryField>, name: Seq<char>) -> Option<EntryValue> {
    field_from(fields, name, 0)
}

/// The start of the first column named `name` at position `i` or later.
pub open spec fn start_from(starts: Seq<ColumnStart>, name: Seq<char>, i: int) -> Option<i64>
    decreases starts.len() - i,
{
    if i < 0 || i >= starts.len() {
        None
    } else if starts[i].name@ == name {
        Some(starts[i].x)
    } else {
        start_from(starts, name, i + 1)
    }
}

pub open spec fn column_start(starts: Seq<ColumnStart>, name: Seq<char>) -> Option<i64> {
    start_from(starts, name, 0)
}

/// The template of the first column named `name` at position `i` or later.
pub open spec fn format_from(formats: Seq<ColumnFormat>, name: Seq<char>, i: int) -> Option<Seq<char>>
    decreases formats.len() - i,
{
    if i < 0 || i >= formats.len() {
        None
    } else if formats[i].name@ == name {
        Some(formats[i].template@)
    } else {
        format_from(formats, name, i + 1)
    }
}

pub open spec fn column_format(formats: Seq<ColumnFormat>, name: Seq<char>) -> Option<Seq<char>> {
    format_from(formats, name, 0)
}

pub open spec fn hours_key() -> Seq<char> {
    "hours"@
}

pub open spec fn rate_key() -> Seq<char> {
    "rate"@
}

pub open spec fn total_key() -> Seq<char> {
    "total"@
}

/// The text a value is bound as: text verbatim, numbers in canonical
/// decimal form.
pub open spec fn value_text(v: EntryValue) -> Seq<char> {
    match v {
        EntryValue::Str(s) => s@,
        EntryValue::Number(n) => decimal_text(n as int),
    }
}

/// Every value of an entry bound under its own name.
pub open spec fn record_bindings(fields: Seq<EntryField>) -> Seq<(Seq<char>, Seq<char>)> {
    fields.map_values(|f: EntryField| (f.name@, value_text(f.value)))
}

/// The number named `name`, or why the entry has none.
pub open spec fn number_field(fields: Seq<EntryField>, name: Seq<char>) -> Result<i64, LayoutFault> {
    match field_value(fields, name) {
        None => Err(LayoutFault::MissingField(name)),
        Some(EntryValue::Str(_)) => Err(LayoutFault::TypeMismatch(name)),
        Some(EntryValue::Number(n)) => Ok(n),
    }
}

pub open spec fn abs(v: int) -> int {
    if v < 0 { -v } else { v }
}

/// `hours * rate` of two fixed-point values, rounded toward zero.
pub open spec fn amount_of(hours: int, rate: int) -> int {
    let m = abs(hours) * abs(rate) / (SCALE as int);
    if (hours < 0) != (rate < 0) { -m } else { m }
}

/// The hours of an entry and its amount, `hours * rate`.
pub open spec fn line_amount(fields: Seq<EntryField>) -> Result<(i64, i64), LayoutFault> {
    match number_field(fields, hours_key()) {
        Err(e) => Err(e),
        Ok(h) => match number_field(fields, rate_key()) {
            Err(e) => Err(e),
            Ok(r) => if fits_i64(amount_of(h as int, r as int)) {
                Ok((h, amount_of(h as int, r as int) as i64))
            } else {
                Err(LayoutFault::NumberOverflow)
            },
        },
    }
}

/// The text of one cell. The `total` column binds only `total`, to the
/// entry's amount; any other column binds every value of the entry.
pub open spec fn cell_text(fields: Seq<EntryField>, format: ColumnFormat, amount: i64) -> Result<Seq<char>, LayoutFault> {
    let bindings = if format.name@ == total_key() {
        seq![(total_key(), decimal_text(amount as int))]
    } else {
        record_bindings(fields)
    };
    match engine_output(format.template@, bindings) {
        None => Err(LayoutFault::Template(format.name@)),
        Some(t) => Ok(t),
    }
}

/// A drawn cell: where its column starts and its text.
#[derive(Debug, PartialEq, Eq)]
pub struct Cell {
    pub x: i64,
    pub text: String,
}

pub open spec fn cell_view(c: Cell) -> (i64, Seq<char>) {
    (c.x, c.text@)
}

pub open spec fn cells_view(cells: Seq<Cell>) -> Seq<(i64, Seq<char>)> {
    cells.map_values(|c: Cell| cell_view(c))
}

/// The cells of columns `j` onward, after the cells in `done`; the first
/// failing column decides the error.
pub open spec fn cells_from(
    fields: Seq<EntryField>,
    formats: Seq<ColumnFormat>,
    starts: Seq<ColumnStart>,
    amount: i64,
    j: int,
    done: Seq<(i64, Seq<char>)>,
) -> Result<Seq<(i64, Seq<char>)>, LayoutFault>
    decreases formats.len() - j,
{
    if j < 0 || j >= formats.len() {
        Ok(done)
    } else {
        match cell_text(fields, formats[j], amount) {
            Err(e) => Err(e),
            Ok(t) => cells_from(
                fields,
                formats,
                starts,
                amount,
                j + 1,
                done.push((column_start(starts, formats[j].name@).unwrap(), t)),
            ),
        }
    }
}

/// The cells of one entry, one per column in template order.
pub open spec fn row_cells(
    fields: Seq<EntryField>,
    formats: Seq<ColumnFormat>,
    starts: Seq<ColumnStart>,
    amount: i64,
) -> Result<Seq<(i64, Seq<char>)>, LayoutFault> {
    cells_from(fields, formats, starts, amount, 0, Seq::empty())
}

/// Rows `i` onward after the rows in `done`, with the running totals of
/// hours and amounts; the first failing entry decides the error.
pub open spec fn rows_from(
    entries: Seq<Seq<EntryField>>,
    formats: Seq<ColumnFormat>,
    starts: Seq<ColumnStart>,
    i: int,
    done: Seq<Seq<(i64, Seq<char>)>>,
    hours: int,
    amount: int,
) -> Result<(Seq<Seq<(i64, Seq<char>)>>, int, int), LayoutFault>
    decreases entries.len() - i,
{
    if i < 0 || i >= entries.len() {
        Ok((done, hours, amount))
    } else {
        match line_amount(entries[i]) {
            Err(e) => Err(e),
            Ok((h, a)) => if !fits_i64(hours + h) || !fits_i64(amount + a) {
                Err(LayoutFault::NumberOverflow)
            } else {
                match row_cells(entries[i], formats, starts, a) {
                    Err(e) => Err(e),
                    Ok(cells) => rows_from(entries, formats, starts, i + 1, done.push(cells), hours + h, amount + a),
                }
            },
        }
    }
}

/// The name of the first column from position `j` on that has a template
/// but no start.
pub open spec fn unplaced_from(formats: Seq<ColumnFormat>, starts: Seq<ColumnStart>, j: int) -> Option<Seq<char>>
    decreases formats.len() - j,
{
    if j < 0 || j >= formats.len() {
        None
    } else if column_start(starts, formats[j].name@) is None {
        Some(formats[j].name@)
    } else {
        unplaced_from(formats, starts, j + 1)
    }
}

/// The bindings of the totals row.
pub open spec fn totals_bindings(hours: int, amount: int) -> Seq<(Seq<char>, Seq<char>)> {
    seq![(hours_key(), decimal_text(hours)), (total_key(), decimal_text(amount))]
}

/// The entries of a timesheet as sequences of fields.
pub open spec fn entries_view(entries: Seq<Vec<EntryField>>) -> Seq<Seq<EntryField>> {
    entries.map_values(|e: Vec<EntryField>| e@)
}

/// The laid-out table as seen by contracts.
pub struct TableView {
    pub font_size: int,
    pub rows: Seq<Seq<(i64, Seq<char>)>>,
    pub summary: Seq<(i64, Seq<char>)>,
    pub total_hours: int,
    pub total_amount: int,
}

/// The table for a timesheet: the font size, the cells of each entry row,
/// the two cells of the totals row and the totals; or the first error met,
/// checking every column's start, then the font size, then the templates of
/// the totals row, then the entries in order, then the totals row.
pub open spec fn table_layout(ts: Timesheet) -> Result<TableView, LayoutFault> {
    let g = ts.entry_pos_data;
    let formats = ts.entry_format@;
    let starts = g.entry_starts@;
    let font = geometry_font_size(g, ts.entries@.len() as int);
    if unplaced_from(formats, starts, 0) is Some {
        Err(LayoutFault::MissingColumnPosition(unplaced_from(formats, starts, 0).unwrap()))
    } else if font <= 0 {
        Err(LayoutFault::LayoutOverflow)
    } else if column_format(formats, hours_key()) is None {
        Err(LayoutFault::MissingColumnFormat(hours_key()))
    } else if column_format(formats, total_key()) is None {
        Err(LayoutFault::MissingColumnFormat(total_key()))
    } else {
        let entries = entries_view(ts.entries@);
        match rows_from(entries, formats, starts, 0, Seq::empty(), 0, 0) {
            Err(e) => Err(e),
            Ok((rows, th, ta)) => {
                let b = totals_bindings(th, ta);
                match engine_output(column_format(formats, hours_key()).unwrap(), b) {
                    None => Err(LayoutFault::Template(hours_key())),
                    Some(hours_text) => match engine_output(column_format(formats, total_key()).unwrap(), b) {
                        None => Err(LayoutFault::Template(total_key())),
                        Some(total_text) => Ok(
                            TableView {
                                font_size: font,
                                rows,
                                summary: seq![
                                    (column_start(starts, hours_key()).unwrap(), hours_text),
                                    (column_start(starts, total_key()).unwrap(), total_text),
                                ],
                                total_hours: th,
                                total_amount: ta,
                            },
                        ),
                    },
                }
            },
        }
    }
}

fn find_field(fields: &Vec<EntryField>, name: &String) -> (r: Option<usize>)
    ensures
        r matches Some(i) ==> i < fields@.len() && field_value(fields@, name@) == Some(fields@[i as int].value),
        r is None ==> field_value(fields@, name@) is None,
{
    let mut i: usize = 0;
    while i < fields.len()
        invariant
            i <= fields@.len(),
            field_value(fields@, name@) == field_from(fields@, name@, i as int),
        decreases fields@.len() - i,
    {
        if fields[i].name == *name {
            return Some(i);
        }
        i += 1;
    }
    None
}

fn find_start(starts: &Vec<ColumnStart>, name: &String) -> (r: Option<i64>)
    ensures
        r == column_start(starts@, name@),
{
    let mut i: usize = 0;
    while i < starts.len()
        invariant
            i <= starts@.len(),
            column_start(starts@, name@) == start_from(starts@, name@, i as int),
        decreases starts@.len() - i,
    {
        if starts[i].name == *name {
            return Some(starts[i].x);
        }
        i += 1;
    }
    None
}

fn find_format(formats: &Vec<ColumnFormat>, name: &String) -> (r: Option<usize>)
    ensures
        r matches Some(j) ==> j < formats@.len() && formats@[j as int].name@ == name@ && column_format(formats@, name@)
            == Some(formats@[j as int].template@),
        r is None ==> column_format(formats@, name@) is None,
{
    let mut j: usize = 0;
    while j < formats.len()
        invariant
            j <= formats@.len(),
            column_format(formats@, name@) == format_from(formats@, name@, j as int),
        decreases formats@.len() - j,
    {
        if formats[j].name == *name {
            return Some(j);
        }
        j += 1;
    }
    None
}

fn number_value(fields: &Vec<EntryField>, name: &String) -> (r: Result<i64, LayoutError>)
    ensures
        match number_field(fields@, name@) {
            Ok(n) => r == Ok::<i64, LayoutError>(n),
            Err(e) => r matches Err(x) && x@ == e,
        },
{
    match find_field(fields, name) {
        None => Err(LayoutError::MissingField(name.clone())),
        Some(i) => match &fields[i].value {
            EntryValue::Str(_) => Err(LayoutError::TypeMismatch(name.clone())),
            EntryValue::Number(n) => Ok(*n),
        },
    }
}

/// The hours of an entry and its amount, `hours * rate` rounded toward zero;
/// `MissingField` or `TypeMismatch` where `hours` or `rate` is absent or is
/// text, `NumberOverflow` where the amount does not fit.
pub fn entry_amount(fields: &Vec<EntryField>) -> (r: Result<(i64, i64), LayoutError>)
    ensures
        match line_amount(fields@) {
            Ok(p) => r == Ok::<(i64, i64), LayoutError>(p),
            Err(e) => r matches Err(x) && x@ == e,
        },
{
    let hours = match number_value(fields, &String::from_str("hours")) {
        Ok(h) => h,
        Err(e) => return Err(e),
    };
    let rate = match number_value(fields, &String::from_str("rate")) {
        Ok(v) => v,
        Err(e) => return Err(e),
    };
    let mh: u128 = if hours < 0 { (-(hours as i128)) as u128 } else { hours as u128 };
    let mr: u128 = if rate < 0 { (-(rate as i128)) as u128 } else { rate as u128 };
    proof {
        assert(mh * mr <= 0x8000_0000_0000_0000u128 * 0x8000_0000_0000_0000u128) by (nonlinear_arith)
            requires mh <= 0x8000_0000_0000_0000u128, mr <= 0x8000_0000_0000_0000u128;
    }
    let m: u128 = mh * mr / (SCALE as u128);
    if m > i64::MAX as u128 + 1 {
        return Err(LayoutError::NumberOverflow);
    }
    let amount: i128 = if (hours < 0) != (rate < 0) { -(m as i128) } else { m as i128 };
    if amount > i64::MAX as i128 {
        return Err(LayoutError::NumberOverflow);
    }
    Ok((hours, amount as i64))
}

/// Every value of an entry bound under its own name, numbers as their
/// canonical decimal text.
pub fn entry_bindings(fields: &Vec<EntryField>) -> (r: Vec<Binding>)
    ensures
        bindings_view(r@) == record_bindings(fields@),
{
    let mut r: Vec<Binding> = Vec::new();
    let mut i: usize = 0;
    while i < fields.len()
        invariant
            i <= fields@.len(),
            r@.len() == i,
            bindings_view(r@) == record_bindings(fields@.take(i as int)),
        decreases fields@.len() - i,
    {
        let value = match &fields[i].value {
            EntryValue::Str(s) => s.clone(),
            EntryValue::Number(n) => decimal_string(*n),
        };
        assert(value@ == value_text(fields@[i as int].value));
        let ghost prev = r@;
        r.push(Binding { name: fields[i].name.clone(), value });
        proof {
            assert(fields@.take(i + 1) == fields@.take(i as int).push(fields@[i as int]));
            assert(bindings_view(r@) =~= bindings_view(prev).push((fields@[i as int].name@, value_text(fields@[i as int].value))));
            assert(record_bindings(fields@.take(i + 1)) =~= record_bindings(fields@.take(i as int)).push((fields@[i as int].name@, value_text(fields@[i as int].value))));
        }
        i += 1;
    }
    assert(fields@.take(i as int) == fields@);
    r
}

/// The laid-out entry table: one font size, the cells of each entry row and
/// of the totals row (hours, then amount), and the totals.
#[derive(Debug, PartialEq, Eq)]
pub struct EntryLayout {
    pub font_size: i64,
    pub rows: Vec<Vec<Cell>>,
    pub summary: Vec<Cell>,
    pub total_hours: i64,
    pub total_amount: i64,
}

pub open spec fn rows_view(rows: Seq<Vec<Cell>>) -> Seq<Seq<(i64, Seq<char>)>> {
    rows.map_values(|r: Vec<Cell>| cells_view(r@))
}

impl View for EntryLayout {
    type V = TableView;

    open spec fn view(&self) -> TableView {
        TableView {
            font_size: self.font_size as int,
            rows: rows_view(self.rows@),
            summary: cells_view(self.summary@),
            total_hours: self.total_hours as int,
            total_amount: self.total_amount as int,
        }
    }
}

proof fn lemma_all_placed(formats: Seq<ColumnFormat>, starts: Seq<ColumnStart>, j: int, k: int)
    requires
        unplaced_from(formats, starts, j) is None,
        0 <= j <= k < formats.len(),
    ensures
        column_start(starts, formats[k].name@) is Some,
    decreases k - j,
{
    if j < k {
        lemma_all_placed(formats, starts, j + 1, k);
    }
}

fn entry_row(
    fields: &Vec<EntryField>,
    formats: &Vec<ColumnFormat>,
    starts: &Vec<ColumnStart>,
    amount: i64,
) -> (r: Result<Vec<Cell>, LayoutError>)
    requires
        unplaced_from(formats@, starts@, 0) is None,
    ensures
        match row_cells(fields@, formats@, starts@, amount) {
            Ok(c) => r matches Ok(x) && cells_view(x@) == c,
            Err(e) => r matches Err(x) && x@ == e,
        },
{
    let bindings = entry_bindings(fields);
    let total_name = String::from_str("total");
    let mut cells: Vec<Cell> = Vec::new();
    assert(cells_view(cells@) =~= Seq::empty());
    let mut j: usize = 0;
    while j < formats.len()
        invariant
            j <= formats@.len(),
            unplaced_from(formats@, starts@, j as int) is None,
            bindings_view(bindings@) == record_bindings(fields@),
            total_name@ == total_key(),
            row_cells(fields@, formats@, starts@, amount) == cells_from(
                fields@,
                formats@,
                starts@,
                amount,
                j as int,
                cells_view(cells@),
            ),
        decreases formats@.len() - j,
    {
        let format = &formats[j];
        let rendered = if format.name == total_name {
            let b = vec![Binding { name: String::from_str("total"), value: decimal_string(amount) }];
            assert(bindings_view(b@) =~= seq![(total_key(), decimal_text(amount as int))]);
            render(format.template.as_str(), &b)
        } else {
            render(format.template.as_str(), &bindings)
        };
        let text = match rendered {
            Ok(t) => t,
            Err(e) => return Err(LayoutError::Template(format.name.clone(), e)),
        };
        let x = match find_start(starts, &format.name) {
            Some(x) => x,
            None => return Err(LayoutError::MissingColumnPosition(format.name.clone())),
        };
        let ghost before = cells@;
        cells.push(Cell { x, text });
        assert(cells_view(cells@) =~= cells_view(before).push(
            (column_start(starts@, formats@[j as int].name@).unwrap(), text@),
        ));
        j += 1;
    }
    Ok(cells)
}

/// Lays out the entry table of `ts`: the font size is fitted once, each entry
/// gives one row of cells (one per column, in template order, at the column's
/// start), and the totals row holds the summed hours and amounts rendered
/// with the `hours` and `total` templates. Every error is found before a
/// single cell is returned.
pub fn layout_entries(ts: &Timesheet) -> (r: Result<EntryLayout, LayoutError>)
    requires
        ts.entry_pos_data.wf(),
    ensures
        match table_layout(*ts) {
            Ok(t) => r matches Ok(l) && l@ == t,
            Err(e) => r matches Err(x) && x@ == e,
        },
{
    let geometry = &ts.entry_pos_data;
    let formats = &ts.entry_format;
    let starts = &geometry.entry_starts;
    let mut j: usize = 0;
    while j < formats.len()
        invariant
            j <= formats@.len(),
            formats@ == ts.entry_format@,
            starts@ == ts.entry_pos_data.entry_starts@,
            unplaced_from(formats@, starts@, 0) == unplaced_from(formats@, starts@, j as int),
        decreases formats@.len() - j,
    {
        if find_start(starts, &formats[j].name).is_none() {
            assert(unplaced_from(formats@, starts@, j as int) == Some(formats@[j as int].name@));
            return Err(LayoutError::MissingColumnPosition(formats[j].name.clone()));
        }
        j += 1;
    }
    let font_size = match entry_font_size(geometry, ts.entries.len()) {
        Ok(f) => f,
        Err(e) => return Err(e),
    };
    let hours_name = String::from_str("hours");
    let total_name = String::from_str("total");
    let hours_format = match find_format(formats, &hours_name) {
        Some(k) => k,
        None => return Err(LayoutError::MissingColumnFormat(hours_name)),
    };
    let total_format = match find_format(formats, &total_name) {
        Some(k) => k,
        None => return Err(LayoutError::MissingColumnFormat(total_name)),
    };
    let ghost entries = entries_view(ts.entries@);
    let mut rows: Vec<Vec<Cell>> = Vec::new();
    let mut total_hours: i64 = 0;
    let mut total_amount: i64 = 0;
    let mut i: usize = 0;
    assert(rows_view(rows@) =~= Seq::empty());
    while i < ts.entries.len()
        invariant
            i <= ts.entries@.len(),
            entries == entries_view(ts.entries@),
            formats@ == ts.entry_format@,
            starts@ == ts.entry_pos_data.entry_starts@,
            font_size == geometry_font_size(ts.entry_pos_data, ts.entries@.len() as int),
            font_size > 0,
            hours_name@ == hours_key(),
            total_name@ == total_key(),
            hours_format < formats@.len(),
            total_format < formats@.len(),
            formats@[hours_format as int].name@ == hours_key(),
            formats@[total_format as int].name@ == total_key(),
            column_format(formats@, hours_key()) == Some(formats@[hours_format as int].template@),
            column_format(formats@, total_key()) == Some(formats@[total_format as int].template@),
            unplaced_from(formats@, starts@, 0) is None,
            rows_from(entries, formats@, starts@, 0, Seq::empty(), 0, 0) == rows_from(
                entries,
                formats@,
                starts@,
                i as int,
                rows_view(rows@),
                total_hours as int,
                total_amount as int,
            ),
        decreases ts.entries@.len() - i,
    {
        let fields = &ts.entries[i];
        assert(entries[i as int] == fields@);
        let (h, a) = match entry_amount(fields) {
            Ok(p) => p,
            Err(e) => return Err(e),
        };
        let nh: i128 = total_hours as i128 + h as i128;
        let na: i128 = total_amount as i128 + a as i128;
        if nh < i64::MIN as i128 || nh > i64::MAX as i128 || na < i64::MIN as i128 || na > i64::MAX as i128 {
            return Err(LayoutError::NumberOverflow);
        }
        let row = match entry_row(fields, formats, starts, a) {
            Ok(c) => c,
            Err(e) => return Err(e),
        };
        let ghost before = rows@;
        rows.push(row);
        assert(rows_view(rows@) =~= rows_view(before).push(cells_view(row@)));
        total_hours = nh as i64;
        total_amount = na as i64;
        i += 1;
    }
    let b = vec![
        Binding { name: String::from_str("hours"), value: decimal_string(total_hours) },
        Binding { name: String::from_str("total"), value: decimal_string(total_amount) },
    ];
    assert(bindings_view(b@) =~= totals_bindings(total_hours as int, total_amount as int));
    let hours_text = match render(formats[hours_format].template.as_str(), &b) {
        Ok(t) => t,
        Err(e) => return Err(LayoutError::Template(hours_name, e)),
    };
    let total_text = match render(formats[total_format].template.as_str(), &b) {
        Ok(t) => t,
        Err(e) => return Err(LayoutError::Template(total_name, e)),
    };
    proof {
        lemma_all_placed(formats@, starts@, 0, hours_format as int);
        lemma_all_placed(formats@, starts@, 0, total_format as int);
    }
    let hours_x = match find_start(starts, &hours_name) {
        Some(x) => x,
        None => return Err(LayoutError::MissingColumnPosition(hours_name)),
    };
    let total_x = match find_start(starts, &total_name) {
        Some(x) => x,
        None => return Err(LayoutError::MissingColumnPosition(total_name)),
    };
    let summary = vec![Cell { x: hours_x, text: hours_text }, Cell { x: total_x, text: total_text }];
    let layout = EntryLayout { font_size, rows, summary, total_hours, total_amount };
    assert(layout@.summary =~= seq![(hours_x, hours_text@), (total_x, total_text@)]);
    Ok(layout)
}

/// The tallest of a row's measured text heights, taken over that row alone;
/// 0 for a row without text.
pub open spec fn row_height(h: Seq<i64>) -> int
    decreases h.len(),
{
    if h.len() == 0 {
        0
    } else {
        let m = row_height(h.drop_last());
        if h.last() > m {
            h.last() as int
        } else {
            m
        }
    }
}

pub open spec fn heights_view(h: Seq<Vec<i64>>) -> Seq<Seq<i64>> {
    h.map_values(|r: Vec<i64>| r@)
}

/// The baseline of row `k`: the first row sits at the top of the box and each
/// next row lower by the tallest text of the row above and the padding. Row
/// `heights.len()` is the totals row.
pub open spec fn baseline(top: int, padding: int, heights: Seq<Seq<i64>>, k: int) -> int
    decreases k,
{
    if k <= 0 || k > heights.len() {
        top
    } else {
        baseline(top, padding, heights, k - 1) + row_height(heights[k - 1]) + padding
    }
}

fn tallest(h: &Vec<i64>) -> (r: i64)
    ensures
        r == row_height(h@),
{
    let mut m: i64 = 0;
    let mut j: usize = 0;
    while j < h.len()
        invariant
            j <= h@.len(),
            m == row_height(h@.take(j as int)),
        decreases h@.len() - j,
    {
        assert(h@.take(j + 1).drop_last() == h@.take(j as int));
        if h[j] > m {
            m = h[j];
        }
        j += 1;
    }
    assert(h@.take(j as int) == h@);
    m
}

/// The baselines of the entry rows and, last, of the totals row, given the
/// measured text heights of each entry row's cells; `None` where a baseline
/// does not fit in 64 bits.
pub fn row_baselines(top: i64, padding: i64, heights: &Vec<Vec<i64>>) -> (r: Option<Vec<i64>>)
    ensures
        r is Some <==> forall|k: int|
            0 <= k <= heights@.len() ==> fits_i64(baseline(top as int, padding as int, heights_view(heights@), k)),
        r matches Some(ys) ==> ys@.len() == heights@.len() + 1 && forall|k: int|
            0 <= k <= heights@.len() ==> ys@[k] == baseline(top as int, padding as int, heights_view(heights@), k),
{
    let ghost hv = heights_view(heights@);
    let mut ys: Vec<i64> = vec![top];
    let mut y: i64 = top;
    let mut i: usize = 0;
    while i < heights.len()
        invariant
            i <= heights@.len(),
            hv == heights_view(heights@),
            ys@.len() == i + 1,
            y == ys@[i as int],
            forall|k: int| 0 <= k <= i ==> ys@[k] == baseline(top as int, padding as int, hv, k),
        decreases heights@.len() - i,
    {
        let next: i128 = y as i128 + tallest(&heights[i]) as i128 + padding as i128;
        assert(hv[i as int] == heights@[i as int]@);
        assert(next == baseline(top as int, padding as int, hv, i + 1));
        if next < i64::MIN as i128 || next > i64::MAX as i128 {
            return None;
        }
        ys.push(next as i64);
        y = next as i64;
        i += 1;
    }
    assert forall|k: int| 0 <= k <= heights@.len() implies fits_i64(baseline(top as int, padding as int, hv, k)) by {
        assert(ys@[k] == baseline(top as int, padding as int, hv, k));
    }
    Some(ys)
}

/// The hours of an entry, 0 where the entry has none.
pub open spec fn line_hours(fields: Seq<EntryField>) -> int {
    match line_amount(fields) {
        Ok((h, _)) => h as int,
        Err(_) => 0,
    }
}

/// The amount of an entry, 0 where the entry has none.
pub open spec fn line_total(fields: Seq<EntryField>) -> int {
    match line_amount(fields) {
        Ok((_, a)) => a as int,
        Err(_) => 0,
    }
}

/// The sum of the hours of entries `i` onward.
pub open spec fn hours_sum(entries: Seq<Seq<EntryField>>, i: int) -> int
    decreases entries.len() - i,
{
    if i < 0 || i >= entries.len() {
        0
    } else {
        line_hours(entries[i]) + hours_sum(entries, i + 1)
    }
}

/// The sum of the amounts of entries `i` onward.
pub open spec fn amount_sum(entries: Seq<Seq<EntryField>>, i: int) -> int
    decreases entries.len() - i,
{
    if i < 0 || i >= entries.len() {
        0
    } else {
        line_total(entries[i]) + amount_sum(entries, i + 1)
    }
}

proof fn lemma_rows_from_totals(
    entries: Seq<Seq<EntryField>>,
    formats: Seq<ColumnFormat>,
    starts: Seq<ColumnStart>,
    i: int,
    done: Seq<Seq<(i64, Seq<char>)>>,
    hours: int,
    amount: int,
)
    requires
        0 <= i <= entries.len(),
        rows_from(entries, formats, starts, i, done, hours, amount) is Ok,
    ensures
        ({
            let (rows, th, ta) = rows_from(entries, formats, starts, i, done, hours, amount)->Ok_0;
            th == hours + hours_sum(entries, i) && ta == amount + amount_sum(entries, i) && rows.len() == done.len()
                + entries.len() - i
        }),
    decreases entries.len() - i,
{
    if i < entries.len() {
        let (h, a) = line_amount(entries[i])->Ok_0;
        let cells = row_cells(entries[i], formats, starts, a)->Ok_0;
        lemma_rows_from_totals(entries, formats, starts, i + 1, done.push(cells), hours + h, amount + a);
    }
}

/// The totals row sums the hours and the amounts (`hours * rate`) of all
/// entries, and the table has one row per entry.
pub proof fn law_totals_are_sums(ts: Timesheet)
    requires
        table_layout(ts) is Ok,
    ensures
        table_layout(ts)->Ok_0.total_hours == hours_sum(entries_view(ts.entries@), 0),
        table_layout(ts)->Ok_0.total_amount == amount_sum(entries_view(ts.entries@), 0),
        table_layout(ts)->Ok_0.rows.len() == ts.entries@.len(),
{
    lemma_rows_from_totals(
        entries_view(ts.entries@),
        ts.entry_format@,
        ts.entry_pos_data.entry_starts@,
        0,
        Seq::empty(),
        0,
        0,
    );
}

/// Without entries the table has no entry row, the totals are zero, the
/// totals row renders hours `0` and total `0`, and its baseline is the top of
/// the box.
pub proof fn law_empty_table(ts: Timesheet)
    requires
        ts.entries@.len() == 0,
        table_layout(ts) is Ok,
    ensures
        table_layout(ts)->Ok_0.rows.len() == 0,
        table_layout(ts)->Ok_0.total_hours == 0,
        table_layout(ts)->Ok_0.total_amount == 0,
        Some(table_layout(ts)->Ok_0.summary[0].1) == engine_output(
            column_format(ts.entry_format@, hours_key()).unwrap(),
            totals_bindings(0, 0),
        ),
        Some(table_layout(ts)->Ok_0.summary[1].1) == engine_output(
            column_format(ts.entry_format@, total_key()).unwrap(),
            totals_bindings(0, 0),
        ),
        baseline(ts.entry_pos_data.box_top.1 as int, ts.entry_pos_data.row_padding as int, Seq::empty(), 0)
            == ts.entry_pos_data.box_top.1,
{
}

proof fn lemma_unplaced_found(formats: Seq<ColumnFormat>, starts: Seq<ColumnStart>, j: int, k: int)
    requires
        0 <= j <= k < formats.len(),
        column_start(starts, formats[k].name@) is None,
    ensures
        unplaced_from(formats, starts, j) matches Some(n) ==> column_start(starts, n) is None,
        unplaced_from(formats, starts, j) is Some,
    decreases k - j,
{
    if j < k && column_start(starts, formats[j].name@) is Some {
        lemma_unplaced_found(formats, starts, j + 1, k);
    }
}

/// A column that has a template but no start position makes the layout fail
/// with `MissingColumnPosition`, naming a column without a start, before any
/// cell is produced.
pub proof fn law_missing_column_position(ts: Timesheet, k: int)
    requires
        0 <= k < ts.entry_format@.len(),
        column_start(ts.entry_pos_data.entry_starts@, ts.entry_format@[k].name@) is None,
    ensures
        table_layout(ts) matches Err(LayoutFault::MissingColumnPosition(n)) && column_start(
            ts.entry_pos_data.entry_starts@,
            n,
        ) is None,
{
    lemma_unplaced_found(ts.entry_format@, ts.entry_pos_data.entry_starts@, 0, k);
}

/// The table depends on the timesheet alone: equal timesheets give equal
/// layouts, and equal measured heights give equal baselines.
pub proof fn law_layout_is_deterministic(a: Timesheet, b: Timesheet, heights: Seq<Seq<i64>>, k: int)
    requires
        a == b,
    ensures
        table_layout(a) == table_layout(b),
        baseline(a.entry_pos_data.box_top.1 as int, a.entry_pos_data.row_padding as int, heights, k) == baseline(
            b.entry_pos_data.box_top.1 as int,
            b.entry_pos_data.row_padding as int,
            heights,
            k,
        ),
{
}

} // verus!
