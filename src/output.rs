//! The kind of page that is written, and where.
use vstd::prelude::*;
use vstd::string::StringExecFns;
use std::path::PathBuf;

verus! {

/// A filesystem path, carried through unchanged.
#[verifier::external_type_specification]
#[verifier::external_body]
pub struct ExPathBuf(PathBuf);

/// The rendered page: a vector page or a raster image, written to the path.
#[derive(Debug, PartialEq, Eq)]
pub enum TimesheetOutputFormat {
    Pdf(PathBuf),
    Png(PathBuf),
}

/// The output for a mode name: `png` or `pdf`; `None` for any other name.
pub fn output_format(mode: &str, path: PathBuf) -> (r: Option<TimesheetOutputFormat>)
    ensures
        mode@ == "png"@ ==> r == Some(TimesheetOutputFormat::Png(path)),
        mode@ == "pdf"@ ==> r == Some(TimesheetOutputFormat::Pdf(path)),
        mode@ != "png"@ && mode@ != "pdf"@ ==> r is None,
{
    proof {
        reveal_strlit("png");
        reveal_strlit("pdf");
        assert("png"@[1] != "pdf"@[1]);
    }
    let m = String::from_str(mode);
    if m == String::from_str("png") {
        Some(TimesheetOutputFormat::Png(path))
    } else if m == String::from_str("pdf") {
        Some(TimesheetOutputFormat::Pdf(path))
    } else {
        None
    }
}

} // verus!
