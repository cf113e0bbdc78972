//! What the serving side answers for a stored document.

use vstd::prelude::*;
use crate::text::concat;

verus! {

/// The envelope of an answer: the data, or the words of an error.
#[derive(Debug, Clone, PartialEq, Eq)]
pub struct APIResponse<T> {
    pub data: Option<T>,
    pub error: Option<String>,
}

/// The status of an answer.
#[derive(Debug, Clone, Copy, PartialEq, Eq, Structural)]
pub enum Status {
    Found,
    NotFound,
}

/// Answers for the version `version`: with the stored document where there is
/// one, else that the version does not exist. What went wrong when the
/// version was fetched is never part of the answer.
pub fn version_response<T>(version: &str, stored: Option<T>) -> (r: (Status, APIResponse<T>))
    ensures
        match stored {
            Some(d) => r.0 == Status::Found && r.1.data == Some(d) && r.1.error is None,
            None => r.0 == Status::NotFound && r.1.data is None && r.1.error.deep_view() == Some(
                "Version "@ + version@ + " does not exist"@,
            ),
        },
{
    match stored {
        Some(d) => (Status::Found, APIResponse { data: Some(d), error: None }),
        None => {
            let mut message = concat("Version ", version);
            message.append(" does not exist");
            (Status::NotFound, APIResponse { data: None, error: Some(message) })
        },
    }
}

/// Answers with a document that is always there.
pub fn document_response<T>(document: T) -> (r: (Status, APIResponse<T>))
    ensures
        r.0 == Status::Found,
        r.1.data == Some(document),
        r.1.error is None,
{
    (Status::Found, APIResponse { data: Some(document), error: None })
}

} // verus!
