//! Errors of the bridge.

use vstd::prelude::*;
use vstd::std_specs::convert::FromSpecImpl;

verus! {

/// The error type of `serde_json`, as encoding an argument or decoding a
/// result gives it. The library only passes such errors on.
#[verifier::external_type_specification]
#[verifier::external_body]
pub struct ExJsonError(serde_json::Error);

/// What can go wrong when a script is created, loaded or called.
#[derive(Debug)]
pub enum JsError {
    /// An argument could not be encoded as JSON, or a result could not be
    /// decoded into the type the caller asked for.
    Json(serde_json::Error),
    /// The engine reported an error: the source did not compile, a script
    /// threw, a module could not be loaded, or execution was terminated.
    Runtime(String),
    /// The engine went quiescent without the script having handed a value
    /// to the return channel.
    MissingResult,
}

/// A `JsError` with texts in place of strings.
pub enum JsErrorView {
    Json(serde_json::Error),
    Runtime(Seq<char>),
    MissingResult,
}

impl View for JsError {
    type V = JsErrorView;

    open spec fn view(&self) -> JsErrorView {
        match *self {
            JsError::Json(e) => JsErrorView::Json(e),
            JsError::Runtime(message) => JsErrorView::Runtime(message@),
            JsError::MissingResult => JsErrorView::MissingResult,
        }
    }
}

impl From<serde_json::Error> for JsError {
    fn from(e: serde_json::Error) -> (err: JsError) {
        JsError::Json(e)
    }
}

impl FromSpecImpl<serde_json::Error> for JsError {
    open spec fn obeys_from_spec() -> bool {
        true
    }

    open spec fn from_spec(e: serde_json::Error) -> JsError {
        JsError::Json(e)
    }
}

/// The view of a result whose error is a `JsError`.
pub open spec fn result_view<T>(result: Result<T, JsError>) -> Result<T, JsErrorView> {
    match result {
        Ok(value) => Ok(value),
        Err(e) => Err(e@),
    }
}

} // verus!
