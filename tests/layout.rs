use timesheet_gen::layout::{entry_amount, entry_font_size, layout_entries, row_baselines, LayoutError};
use timesheet_gen::model::{
    max_font_size, ColumnFormat, ColumnStart, EntryField, EntryValue, Timesheet, TimesheetEntryPositionalData,
};
use timesheet_gen::number::SCALE;

fn units(v: i64) -> i64 {
    v * SCALE
}

fn number(name: &str, v: i64) -> EntryField {
    EntryField { name: name.to_string(), value: EntryValue::Number(v) }
}

fn text(name: &str, v: &str) -> EntryField {
    EntryField { name: name.to_string(), value: EntryValue::Str(v.to_string()) }
}

fn format(name: &str, template: &str) -> ColumnFormat {
    ColumnFormat { name: name.to_string(), template: template.to_string() }
}

fn start(name: &str, x: i64) -> ColumnStart {
    ColumnStart { name: name.to_string(), x }
}

fn geometry(starts: Vec<ColumnStart>) -> TimesheetEntryPositionalData {
    TimesheetEntryPositionalData {
        box_top: (0, 0),
        box_bottom: (0, units(100)),
        entry_starts: starts,
        row_padding: units(2),
        max_font_size: units(20),
    }
}

fn sheet(entries: Vec<Vec<EntryField>>) -> Timesheet {
    Timesheet {
        pos_data: vec![],
        entries,
        entry_format: vec![
            format("date", "{date}"),
            format("hours", "{hours}"),
            format("total", "{total}"),
        ],
        entry_pos_data: geometry(vec![start("date", units(10)), start("hours", units(50)), start("total", units(80))]),
    }
}

fn work_day(date: &str, hours: i64, rate: i64) -> Vec<EntryField> {
    vec![text("date", date), number("hours", units(hours)), number("rate", units(rate))]
}

#[test]
fn font_size_capped_by_maximum() {
    let g = geometry(vec![]);
    assert_eq!(entry_font_size(&g, 3).ok(), Some(units(20)));
}

#[test]
fn font_size_shrinks_to_fit() {
    let g = geometry(vec![]);
    // ten rows: (100 - 10 * 2) / 10 = 8
    assert_eq!(entry_font_size(&g, 9).ok(), Some(units(8)));
}

#[test]
fn font_size_overflow_when_rows_do_not_fit() {
    let g = geometry(vec![]);
    assert_eq!(entry_font_size(&g, 49).err(), Some(LayoutError::LayoutOverflow));
}

#[test]
fn default_max_font_size_is_twelve() {
    assert_eq!(max_font_size(), units(12));
}

#[test]
fn totals_of_two_entries() {
    let ts = sheet(vec![work_day("01/02/2024", 2, 10), work_day("01/03/2024", 3, 20)]);
    let l = layout_entries(&ts).unwrap();
    assert_eq!(l.total_hours, units(5));
    assert_eq!(l.total_amount, units(80));
    assert_eq!(l.summary[0].text, "5");
    assert_eq!(l.summary[0].x, units(50));
    assert_eq!(l.summary[1].text, "80");
    assert_eq!(l.summary[1].x, units(80));
    assert_eq!(l.font_size, units(20));
}

#[test]
fn rows_use_each_column_template() {
    let mut ts = sheet(vec![work_day("01/02/2024", 2, 10)]);
    ts.entry_format[0] = format("date", "Day {date}, {hours} h");
    ts.entry_format[2] = format("total", "${total}");
    let l = layout_entries(&ts).unwrap();
    assert_eq!(l.rows.len(), 1);
    let texts: Vec<&str> = l.rows[0].iter().map(|c| c.text.as_str()).collect();
    assert_eq!(texts, vec!["Day 01/02/2024, 2 h", "2", "$20"]);
    let xs: Vec<i64> = l.rows[0].iter().map(|c| c.x).collect();
    assert_eq!(xs, vec![units(10), units(50), units(80)]);
}

#[test]
fn fractional_amount_is_exact() {
    let ts = sheet(vec![vec![number("hours", 7_500_000), number("rate", 12_250_000)]]);
    let mut ts = ts;
    ts.entry_format.remove(0);
    let l = layout_entries(&ts).unwrap();
    assert_eq!(l.rows[0][1].text, "91.875");
    assert_eq!(l.summary[0].text, "7.5");
}

#[test]
fn layout_is_repeatable() {
    let ts = sheet(vec![work_day("01/02/2024", 2, 10), work_day("01/03/2024", 3, 20)]);
    let a = layout_entries(&ts).unwrap();
    let b = layout_entries(&ts).unwrap();
    assert_eq!(a, b);
}

#[test]
fn empty_table_keeps_totals_row() {
    let ts = sheet(vec![]);
    let l = layout_entries(&ts).unwrap();
    assert!(l.rows.is_empty());
    assert_eq!(l.summary[0].text, "0");
    assert_eq!(l.summary[1].text, "0");
    let ys = row_baselines(ts.entry_pos_data.box_top.1, ts.entry_pos_data.row_padding, &vec![]).unwrap();
    assert_eq!(ys, vec![ts.entry_pos_data.box_top.1]);
}

#[test]
fn missing_column_position_is_reported() {
    let mut ts = sheet(vec![work_day("01/02/2024", 2, 10)]);
    ts.entry_pos_data.entry_starts.remove(0);
    assert_eq!(layout_entries(&ts).err(), Some(LayoutError::MissingColumnPosition("date".to_string())));
}

#[test]
fn missing_totals_template_is_reported() {
    let mut ts = sheet(vec![]);
    ts.entry_format.remove(2);
    assert_eq!(layout_entries(&ts).err(), Some(LayoutError::MissingColumnFormat("total".to_string())));
}

#[test]
fn missing_rate_is_reported() {
    let ts = sheet(vec![vec![text("date", "x"), number("hours", units(1))]]);
    assert_eq!(layout_entries(&ts).err(), Some(LayoutError::MissingField("rate".to_string())));
}

#[test]
fn text_hours_is_a_type_mismatch() {
    let fields = vec![text("hours", "two"), number("rate", units(1))];
    assert_eq!(entry_amount(&fields).err(), Some(LayoutError::TypeMismatch("hours".to_string())));
}

#[test]
fn negative_amount_rounds_toward_zero() {
    let fields = vec![number("hours", -3), number("rate", 500_000)];
    assert_eq!(entry_amount(&fields).ok(), Some((-3, -1)));
}

#[test]
fn amount_overflow_is_reported() {
    let fields = vec![number("hours", i64::MAX), number("rate", i64::MAX)];
    assert_eq!(entry_amount(&fields).err(), Some(LayoutError::NumberOverflow));
}

#[test]
fn unresolved_placeholder_fails_layout() {
    let mut ts = sheet(vec![work_day("01/02/2024", 2, 10)]);
    ts.entry_format[0] = format("date", "{day}");
    assert!(matches!(layout_entries(&ts), Err(LayoutError::Template(ref c, _)) if c == "date"));
}

#[test]
fn too_many_entries_overflow_the_box() {
    let entries = (0..60).map(|_| work_day("01/02/2024", 1, 1)).collect();
    let ts = sheet(entries);
    assert_eq!(layout_entries(&ts).err(), Some(LayoutError::LayoutOverflow));
}

#[test]
fn baselines_advance_by_tallest_text_and_padding() {
    let ys = row_baselines(units(100), units(2), &vec![vec![units(10), units(12)], vec![units(5)]]).unwrap();
    assert_eq!(ys, vec![units(100), units(114), units(121)]);
}

#[test]
fn baselines_overflow_is_none() {
    assert_eq!(row_baselines(i64::MAX - 1, 2, &vec![vec![1]]), None);
}
