//! What is decided around the insertion, update and deletion of rows.

use crate::engine::error::EngineError;
use crate::engine::types::opt_view;
use crate::engine::value::QueryResult;
use vstd::prelude::*;
use vstd::string::*;

verus! {

/// The outcome of a row mutation, as the caller is told.
#[derive(Debug)]
pub struct MutationResponse {
    pub success: bool,
    pub result: Option<QueryResult>,
    pub error: Option<String>,
}

impl MutationResponse {
    /// The refusal of a mutation on a session that may only read, or
    /// `None` where the session may write.
    pub fn read_only_guard(read_only: bool) -> (r: Option<Self>)
        ensures
            !read_only ==> r is None,
            read_only ==> r is Some && !r->0.success && r->0.result is None && opt_view(
                r->0.error,
            ) == Some("Operation blocked: read-only mode"@),
    {
        if read_only {
            Some(
                MutationResponse {
                    success: false,
                    result: None,
                    error: Some(String::from_str("Operation blocked: read-only mode")),
                },
            )
        } else {
            None
        }
    }

    /// The envelope for the outcome of a mutation. A result is stamped
    /// with the time the mutation took.
    pub fn from_outcome(outcome: Result<QueryResult, EngineError>, elapsed_us: u64) -> (r: Self)
        ensures
            match outcome {
                Ok(result) => r.success && r.error is None && r.result is Some
                    && r.result->0.columns == result.columns && r.result->0.rows == result.rows
                    && r.result->0.affected_rows == result.affected_rows
                    && r.result->0.execution_time_us == elapsed_us,
                Err(e) => !r.success && r.result is None && opt_view(r.error) == Some(
                    e.message_spec(),
                ),
            },
    {
        match outcome {
            Ok(result) => {
                let mut result = result;
                result.execution_time_us = elapsed_us;
                MutationResponse { success: true, result: Some(result), error: None }
            },
            Err(e) => MutationResponse { success: false, result: None, error: Some(e.message()) },
        }
    }
}

} // verus!
