//! Why a stream could not be transcoded to the end.

use vstd::prelude::*;
use vstd::string::StringExecFns;

verus! {

#[verifier::external_type_specification]
#[verifier::external_body]
pub struct ExArrowError(arrow::error::ArrowError);

/// The two failures that end a stream.
#[derive(Debug)]
pub enum Error {
    /// The sheet refused a write.
    Xlsx(rust_xlsxwriter::XlsxError),
    /// The source could not produce the next batch.
    Arrow(arrow::error::ArrowError),
}

impl From<rust_xlsxwriter::XlsxError> for Error {
    fn from(e: rust_xlsxwriter::XlsxError) -> (out: Error) {
        Error::Xlsx(e)
    }
}

impl vstd::std_specs::convert::FromSpecImpl<rust_xlsxwriter::XlsxError> for Error {
    open spec fn obeys_from_spec() -> bool {
        true
    }

    open spec fn from_spec(e: rust_xlsxwriter::XlsxError) -> Error {
        Error::Xlsx(e)
    }
}

impl From<arrow::error::ArrowError> for Error {
    fn from(e: arrow::error::ArrowError) -> (out: Error) {
        Error::Arrow(e)
    }
}

impl vstd::std_specs::convert::FromSpecImpl<arrow::error::ArrowError> for Error {
    open spec fn obeys_from_spec() -> bool {
        true
    }

    open spec fn from_spec(e: arrow::error::ArrowError) -> Error {
        Error::Arrow(e)
    }
}

/// What stands before the sheet's own words.
pub open spec fn xlsx_label() -> Seq<char> {
    "Xlsx error: "@
}

/// What stands before the source's own words.
pub open spec fn arrow_label() -> Seq<char> {
    "Arrow error: "@
}

/// The text is the label followed by some words.
pub open spec fn labels(text: Seq<char>, label: Seq<char>) -> bool {
    exists|detail: Seq<char>| text == label + detail
}

/// Formats the sheet's error with its `Display`. Nothing is claimed of the
/// text: for some errors it comes from the operating system.
#[verifier::external_body]
fn xlsx_error_text(e: &rust_xlsxwriter::XlsxError) -> (out: String) {
    format!("{}", e)
}

/// Formats the source's error with its `Display`. Nothing is claimed of the
/// text: for some errors it comes from whatever the error wraps.
#[verifier::external_body]
fn arrow_error_text(e: &arrow::error::ArrowError) -> (out: String) {
    format!("{}", e)
}

/// The message of a failure whose own words are `detail`: the label of its
/// kind, then the words.
pub fn labelled(from_sheet: bool, detail: &str) -> (out: String)
    ensures
        out@ == (if from_sheet {
            xlsx_label()
        } else {
            arrow_label()
        }) + detail@,
{
    if from_sheet {
        String::from_str("Xlsx error: ").concat(detail)
    } else {
        String::from_str("Arrow error: ").concat(detail)
    }
}

impl Error {
    /// The message for the operator: the label of the kind, then the words of
    /// the error that the sheet or the source gave, whatever they are.
    pub fn message(&self) -> (out: String)
        ensures
            *self is Xlsx ==> labels(out@, xlsx_label()),
            *self is Arrow ==> labels(out@, arrow_label()),
    {
        match self {
            Error::Xlsx(e) => {
                let detail = xlsx_error_text(e);
                labelled(true, detail.as_str())
            },
            Error::Arrow(e) => {
                let detail = arrow_error_text(e);
                labelled(false, detail.as_str())
            },
        }
    }
}

} // verus!
