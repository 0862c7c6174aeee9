//! Typed error variants for kaname operations.

use vstd::prelude::*;

verus! {

/// `std::io::Error`, the error of a failed I/O operation.
#[verifier::external_type_specification]
#[verifier::external_body]
pub struct ExIoError(std::io::Error);

/// Errors that can occur in kaname MCP server operations.
#[derive(Debug)]
#[non_exhaustive]
pub enum KanameError {
    /// A requested configuration key was not found.
    ConfigKeyNotFound {
        /// The key that was looked up.
        key: String,
    },
    /// JSON serialization or deserialization failed.
    Json(serde_json::Error),
    /// An I/O error occurred (e.g. during transport setup).
    Io(std::io::Error),
}

impl KanameError {
    /// The message that describes the error.
    pub fn to_string(&self) -> (text: String)
        ensures
            match self {
                KanameError::ConfigKeyNotFound { key } => text@ == "config key not found: "@ + key@,
                KanameError::Json(err) => exists|shown: String|
                    vstd::string::to_string_from_display_ensures(err, shown) && text@ == "json error: "@ + shown@,
                KanameError::Io(err) => exists|shown: String|
                    vstd::string::to_string_from_display_ensures(err, shown) && text@ == "io error: "@ + shown@,
            },
    {
        match self {
            KanameError::ConfigKeyNotFound { key } => {
                let mut text = "config key not found: ".to_owned();
                text.append(key.as_str());
                text
            },
            KanameError::Json(err) => {
                let shown = err.to_string();
                let mut text = "json error: ".to_owned();
                text.append(shown.as_str());
                text
            },
            KanameError::Io(err) => {
                let shown = err.to_string();
                let mut text = "io error: ".to_owned();
                text.append(shown.as_str());
                text
            },
        }
    }
}

impl From<serde_json::Error> for KanameError {
    fn from(err: serde_json::Error) -> (wrapped: Self)
        ensures
            wrapped == KanameError::Json(err),
    {
        KanameError::Json(err)
    }
}

impl vstd::std_specs::convert::FromSpecImpl<serde_json::Error> for KanameError {
    open spec fn obeys_from_spec() -> bool {
        true
    }

    open spec fn from_spec(v: serde_json::Error) -> Self {
        KanameError::Json(v)
    }
}

impl From<std::io::Error> for KanameError {
    fn from(err: std::io::Error) -> (wrapped: Self)
        ensures
            wrapped == KanameError::Io(err),
    {
        KanameError::Io(err)
    }
}

impl vstd::std_specs::convert::FromSpecImpl<std::io::Error> for KanameError {
    open spec fn obeys_from_spec() -> bool {
        true
    }

    open spec fn from_spec(v: std::io::Error) -> Self {
        KanameError::Io(v)
    }
}

} // verus!
