//! Header fields: each is drawn at its own point, independently of the rest.
use vstd::prelude::*;
use crate::date::{CalendarDate, us_date_text};
use crate::model::{TimesheetData, TimesheetPositionalData};

verus! {

/// A text to draw with its baseline start point and font size.
#[derive(Debug, PartialEq, Eq)]
pub struct PlacedText {
    pub x: i64,
    pub y: i64,
    pub font_size: i64,
    pub text: String,
}

/// The text of a header field: the date of the run as `MM/DD/YYYY`, or the
/// field's own text verbatim.
pub open spec fn field_text(d: TimesheetData, today: CalendarDate) -> Seq<char> {
    match d {
        TimesheetData::Date => us_date_text(today.year as nat, today.month as nat, today.day as nat),
        TimesheetData::Str(s) => s@,
    }
}

/// One placed text per header field, in the fields' order, at the field's
/// point and font size, with `today` standing for the date of the run.
pub fn place_pos_data(pos_data: &Vec<TimesheetPositionalData>, today: &CalendarDate) -> (r: Vec<PlacedText>)
    requires
        today.wf(),
    ensures
        r@.len() == pos_data@.len(),
        forall|i: int|
            0 <= i < r@.len() ==> r@[i].x == pos_data@[i].pos.0 && r@[i].y == pos_data@[i].pos.1
                && r@[i].font_size == pos_data@[i].font_size && r@[i].text@ == field_text(
                pos_data@[i].data_value,
                *today,
            ),
{
    let mut r: Vec<PlacedText> = Vec::new();
    let mut i: usize = 0;
    while i < pos_data.len()
        invariant
            i <= pos_data@.len(),
            today.wf(),
            r@.len() == i,
            forall|k: int|
                0 <= k < i ==> r@[k].x == pos_data@[k].pos.0 && r@[k].y == pos_data@[k].pos.1
                    && r@[k].font_size == pos_data@[k].font_size && r@[k].text@ == field_text(
                    pos_data@[k].data_value,
                    *today,
                ),
        decreases pos_data@.len() - i,
    {
        let field = &pos_data[i];
        let text = match &field.data_value {
            TimesheetData::Date => today.us_text(),
            TimesheetData::Str(s) => s.clone(),
        };
        r.push(PlacedText { x: field.pos.0, y: field.pos.1, font_size: field.font_size, text });
        i += 1;
    }
    r
}

} // verus!
