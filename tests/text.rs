use timesheet_gen::date::CalendarDate;
use timesheet_gen::model::{TimesheetData, TimesheetPositionalData};
use timesheet_gen::number::decimal_string;
use timesheet_gen::output::{output_format, TimesheetOutputFormat};
use timesheet_gen::placement::place_pos_data;
use timesheet_gen::template::{render, Binding, TemplateError};
use std::path::PathBuf;

fn bind(name: &str, value: &str) -> Binding {
    Binding { name: name.to_string(), value: value.to_string() }
}

#[test]
fn render_substitutes_placeholder() {
    assert_eq!(render("Hours: {hours}", &vec![bind("hours", "5")]).ok(), Some("Hours: 5".to_string()));
}

#[test]
fn render_missing_binding() {
    assert!(matches!(render("Hours: {hours}", &vec![bind("rate", "5")]), Err(TemplateError::MissingBinding(_))));
}

#[test]
fn render_malformed_template() {
    assert!(matches!(render("Hours: {hours", &vec![bind("hours", "5")]), Err(TemplateError::Malformed(_))));
}

#[test]
fn render_plain_text_unchanged() {
    assert_eq!(render("Total", &vec![]).ok(), Some("Total".to_string()));
}

#[test]
fn decimal_text_of_numbers() {
    assert_eq!(decimal_string(80_000_000), "80");
    assert_eq!(decimal_string(2_500_000), "2.5");
    assert_eq!(decimal_string(-500_000), "-0.5");
    assert_eq!(decimal_string(1), "0.000001");
    assert_eq!(decimal_string(0), "0");
    assert_eq!(decimal_string(12_340_500), "12.3405");
    assert_eq!(decimal_string(i64::MIN), "-9223372036854.775808");
}

#[test]
fn date_text_is_padded() {
    let d = CalendarDate::new(2024, 3, 7).unwrap();
    assert_eq!(d.us_text(), "03/07/2024");
    let d = CalendarDate::new(987, 12, 31).unwrap();
    assert_eq!(d.us_text(), "12/31/0987");
}

#[test]
fn invalid_dates_are_refused() {
    assert!(CalendarDate::new(2023, 2, 29).is_none());
    assert!(CalendarDate::new(2024, 2, 29).is_some());
    assert!(CalendarDate::new(1900, 2, 29).is_none());
    assert!(CalendarDate::new(2000, 2, 29).is_some());
    assert!(CalendarDate::new(2024, 13, 1).is_none());
    assert!(CalendarDate::new(2024, 4, 31).is_none());
    assert!(CalendarDate::new(10000, 1, 1).is_none());
}

#[test]
fn header_fields_are_placed() {
    let today = CalendarDate::new(2024, 11, 5).unwrap();
    let fields = vec![
        TimesheetPositionalData {
            data_name: "name".to_string(),
            data_value: TimesheetData::Str("Ada".to_string()),
            pos: (1, 2),
            font_size: 3,
        },
        TimesheetPositionalData { data_name: "date".to_string(), data_value: TimesheetData::Date, pos: (4, 5), font_size: 6 },
    ];
    let placed = place_pos_data(&fields, &today);
    assert_eq!(placed.len(), 2);
    assert_eq!((placed[0].x, placed[0].y, placed[0].font_size, placed[0].text.as_str()), (1, 2, 3, "Ada"));
    assert_eq!((placed[1].x, placed[1].y, placed[1].font_size, placed[1].text.as_str()), (4, 5, 6, "11/05/2024"));
}

#[test]
fn header_fields_repeat_with_fixed_date() {
    let today = CalendarDate::new(2024, 1, 2).unwrap();
    let fields = vec![TimesheetPositionalData {
        data_name: "date".to_string(),
        data_value: TimesheetData::Date,
        pos: (0, 0),
        font_size: 1,
    }];
    assert_eq!(place_pos_data(&fields, &today), place_pos_data(&fields, &today));
}

#[test]
fn output_modes() {
    assert_eq!(output_format("png", PathBuf::from("a.png")), Some(TimesheetOutputFormat::Png(PathBuf::from("a.png"))));
    assert_eq!(output_format("pdf", PathBuf::from("a.pdf")), Some(TimesheetOutputFormat::Pdf(PathBuf::from("a.pdf"))));
    assert_eq!(output_format("svg", PathBuf::from("a.svg")), None);
}
