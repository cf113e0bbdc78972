//! What is reported when an upstream document cannot be read.

use vstd::prelude::*;
use crate::decimal::{decimal_of, u64_to_string};
use crate::text::concat;
use crate::utils::{context_before, get_json_context_back, place_in, place_is_in};

verus! {

/// The length beyond which the context of an error is cut.
pub const CONTEXT_LENGTH: usize = 200;

/// Why an upstream document cannot be read.
#[derive(Debug, Clone, PartialEq, Eq)]
pub enum MetadataError {
    /// The document is no JSON of the expected shape.
    BadJsonData {
        /// What stands in the document just before the place of the error.
        ctx: String,
        /// The line of the error, counted from 1.
        line: usize,
        /// The column of the error.
        column: usize,
    },
}

impl MetadataError {
    /// The error for a document `body` that could not be read at the place
    /// `line`, `column`, with what stands just before that place as context.
    pub fn from_json_position(line: usize, column: usize, body: &str) -> (r: Self)
        requires
            place_in(body@, line as int, column as int),
        ensures
            r matches MetadataError::BadJsonData { ctx, line: l, column: c } && l == line && c
                == column && ctx@ == context_before(
                body@,
                line as int,
                column as int,
                CONTEXT_LENGTH as int,
            ),
    {
        MetadataError::BadJsonData {
            ctx: get_json_context_back(line, column, body, CONTEXT_LENGTH),
            line,
            column,
        }
    }

    /// The error for a document that could not be read at the place `line`,
    /// `column`. Where that place does not lie in the document there is no
    /// context, and no error is made.
    pub fn try_from_json_position(line: usize, column: usize, body: &str) -> (r: Option<Self>)
        ensures
            r is Some <==> place_in(body@, line as int, column as int),
            r matches Some(MetadataError::BadJsonData { ctx, line: l, column: c }) ==> l == line
                && c == column && ctx@ == context_before(
                body@,
                line as int,
                column as int,
                CONTEXT_LENGTH as int,
            ),
    {
        if place_is_in(body, line, column) {
            Some(MetadataError::from_json_position(line, column, body))
        } else {
            None
        }
    }

    /// The message of the error, with the words of its cause.
    pub fn message(&self, cause: &str) -> (m: String)
        ensures
            self matches MetadataError::BadJsonData { ctx, line, column } && m@
                == "Unable to deserialise json object at "@ + decimal_of(*line as nat) + ":"@
                + decimal_of(*column as nat) + ". Context `"@ + ctx@ + "` \n\nCaused by:\n\t"@
                + cause@,
    {
        match self {
            MetadataError::BadJsonData { ctx, line, column } => {
                let mut m = concat(
                    "Unable to deserialise json object at ",
                    u64_to_string(*line as u64).as_str(),
                );
                m.append(":");
                m.append(u64_to_string(*column as u64).as_str());
                m.append(". Context `");
                m.append(ctx.as_str());
                m.append("` \n\nCaused by:\n\t");
                m.append(cause);
                m
            },
        }
    }
}

} // verus!
