//! Layout engine that places header fields and a table of entries, with a
//! totals row, onto a single-page document template.
//!
//! All lengths and numbers are fixed-point integers counting millionths of a
//! unit (see [`number::SCALE`]).
pub mod number;
pub mod template;
pub mod date;
pub mod model;
pub mod layout;
pub mod placement;
pub mod output;
