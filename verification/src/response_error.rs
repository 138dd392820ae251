//! The ways in which reading or writing a payload fails.
//!
//! Each failure concerns the request or response at hand and nothing else.
//! A failure to read is the client's and has a status in the 400s; a failure
//! to write is the server's and has a status in the 500s.

use vstd::prelude::*;

verus! {

/// `serde_json`'s error, known to Verus as an opaque type.
#[verifier::external_type_specification]
#[verifier::external_body]
pub struct ExJsonError(serde_json::Error);

/// `serde_path_to_error`'s error, an inner error together with the path at
/// which it arose, known to Verus as an opaque type.
#[verifier::external_type_specification]
#[verifier::external_body]
#[verifier::reject_recursive_types(E)]
pub struct ExPathError<E>(serde_path_to_error::Error<E>);

/// `serde`'s plain error, with which `serde_html_form` fails to read a form,
/// known to Verus as an opaque type.
#[verifier::external_type_specification]
#[verifier::external_body]
pub struct ExFormReadError(serde::de::value::Error);

/// The error with which `serde_html_form` fails to write a form, known to
/// Verus as an opaque type.
#[verifier::external_type_specification]
#[verifier::external_body]
pub struct ExFormWriteError(serde_html_form::ser::Error);

/// A JSON decoding error with the path to where it arose.
pub type JsonPathError = serde_path_to_error::Error<serde_json::Error>;

/// What kind of fault a JSON decoding error reports.
#[derive(Debug, Clone, Copy, PartialEq, Eq, Structural)]
pub enum JsonErrorCategory {
    /// Bytes could not be read.
    Io,
    /// The input is not well-formed JSON.
    Syntax,
    /// The input is well-formed but not of the shape asked for.
    Data,
    /// The input ended too early.
    Eof,
}

/// A failure to read a JSON body.
#[derive(Debug)]
pub enum ReadJsonError {
    /// The request does not declare a JSON content type.
    InvalidJsonContentType,
    /// The body is not well-formed JSON.
    JsonSyntaxError(JsonPathError),
    /// The body is well-formed JSON of the wrong shape.
    JsonDataError(JsonPathError),
    /// The body could not be read in full.
    ReadBytesError(String),
}

/// A failure to write a value as JSON.
#[derive(Debug)]
pub struct WriteJsonError(pub serde_json::Error);

/// A failure to read a form body.
#[derive(Debug)]
pub enum ReadFormError {
    /// The request does not declare the content type of a form.
    InvalidFormContentType,
    /// The body is not a form of the shape asked for.
    FormDeserializeError(serde::de::value::Error),
    /// The body could not be read in full.
    ReadBytesError(String),
}

/// A failure to write a value as a form.
#[derive(Debug)]
pub struct WriteFormError(pub serde_html_form::ser::Error);

/// A failure to serve a download.
#[derive(Debug)]
pub enum DownloadError<E> {
    /// The payload itself could not be written.
    Inner(E),
    /// The file name cannot stand in a header.
    InvalidContentDisposition { file_name: String },
}

/// The kind of fault that a JSON decoding error reports, as `serde_json`
/// classifies the error that it holds.
pub uninterp spec fn json_error_category_of(error: JsonPathError) -> JsonErrorCategory;

/// The kind of fault that a JSON decoding error reports. Trusted: the body
/// is `serde_json::Error::classify` on the inner error, with its four
/// variants told apart. The category is read off the error alone; the
/// contract names it and claims nothing else of it.
#[verifier::external_body]
fn json_error_category(error: &JsonPathError) -> (r: JsonErrorCategory)
    ensures
        r == json_error_category_of(*error),
{
    match error.inner().classify() {
        serde_json::error::Category::Io => JsonErrorCategory::Io,
        serde_json::error::Category::Syntax => JsonErrorCategory::Syntax,
        serde_json::error::Category::Data => JsonErrorCategory::Data,
        serde_json::error::Category::Eof => JsonErrorCategory::Eof,
    }
}

/// The failure that a decoding error of the given category stands for: a
/// data error where the input has the wrong shape, and a syntax error where
/// it is malformed, ends too early or, against the design, could not be
/// read.
pub open spec fn read_json_error(category: JsonErrorCategory, error: JsonPathError) -> ReadJsonError {
    match category {
        JsonErrorCategory::Data => ReadJsonError::JsonDataError(error),
        JsonErrorCategory::Syntax | JsonErrorCategory::Eof | JsonErrorCategory::Io =>
            ReadJsonError::JsonSyntaxError(error),
    }
}

impl ReadJsonError {
    /// The failure that a decoding error of the given category stands for.
    pub fn from_category(category: JsonErrorCategory, error: JsonPathError) -> (r: ReadJsonError)
        ensures
            r == read_json_error(category, error),
    {
        match category {
            JsonErrorCategory::Data => ReadJsonError::JsonDataError(error),
            JsonErrorCategory::Syntax | JsonErrorCategory::Eof => ReadJsonError::JsonSyntaxError(
                error,
            ),
            // Bodies are buffered in full before they are decoded, so no
            // read can fail here; a decoder that says so is not believed.
            JsonErrorCategory::Io => ReadJsonError::JsonSyntaxError(error),
        }
    }

    /// The failure that a decoding error stands for, by the category that
    /// the decoder gives it: a data error where it reports data of the wrong
    /// shape, and a syntax error otherwise. Either holds the error.
    pub fn from_decode_error(error: JsonPathError) -> (r: ReadJsonError)
        ensures
            r == read_json_error(json_error_category_of(error), error),
    {
        let category = json_error_category(&error);
        ReadJsonError::from_category(category, error)
    }

    /// The status of the response that reports this failure.
    pub fn status(&self) -> (r: u16)
        ensures
            r == match self {
                ReadJsonError::InvalidJsonContentType => 415u16,
                ReadJsonError::JsonSyntaxError(_) => 400u16,
                ReadJsonError::JsonDataError(_) => 422u16,
                ReadJsonError::ReadBytesError(_) => 400u16,
            },
            400 <= r < 500,
    {
        match self {
            ReadJsonError::InvalidJsonContentType => 415,
            ReadJsonError::JsonSyntaxError(_) => 400,
            ReadJsonError::JsonDataError(_) => 422,
            ReadJsonError::ReadBytesError(_) => 400,
        }
    }
}

impl WriteJsonError {
    /// The status of the response that reports this failure.
    pub fn status(&self) -> (r: u16)
        ensures
            r == 500,
    {
        500
    }
}

impl ReadFormError {
    /// The status of the response that reports this failure.
    pub fn status(&self) -> (r: u16)
        ensures
            r == match self {
                ReadFormError::InvalidFormContentType => 415u16,
                ReadFormError::FormDeserializeError(_) => 422u16,
                ReadFormError::ReadBytesError(_) => 400u16,
            },
            400 <= r < 500,
    {
        match self {
            ReadFormError::InvalidFormContentType => 415,
            ReadFormError::FormDeserializeError(_) => 422,
            ReadFormError::ReadBytesError(_) => 400,
        }
    }
}

impl WriteFormError {
    /// The status of the response that reports this failure.
    pub fn status(&self) -> (r: u16)
        ensures
            r == 500,
    {
        500
    }
}

impl<E> DownloadError<E> {
    /// The status of the response that reports this failure.
    pub fn status(&self) -> (r: u16)
        ensures
            r == 500,
    {
        500
    }
}

} // verus!
