//! The host's side of one call: the request as it goes to the guest, and what
//! the caller gets for the guest's answer.

use vstd::prelude::*;
use vstd::string::*;
use crate::admission::ServiceError;
use crate::config::RunnerConfig;
use crate::language::Language;
use crate::run::RunError;
use crate::service::Output;
use crate::span::Span;
use crate::transport::{decode_output, decode_output_spec};

verus! {

/// One submission with the limits of its two phases.
#[derive(Debug, PartialEq, Eq)]
pub struct ExecutionRequest {
    pub lang: Language,
    pub code: String,
    pub input: String,
    pub compile_timeout: Span,
    pub run_timeout: Span,
}

impl ExecutionRequest {
    /// The request for a submission. Input that was not given is empty; the
    /// limits are the configured ones.
    pub fn new(lang: Language, code: String, input: Option<String>, runner: &RunnerConfig) -> (r:
        ExecutionRequest)
        ensures
            r.lang == lang,
            r.code == code,
            r.input@ == match input {
                Some(text) => text@,
                None => Seq::<char>::empty(),
            },
            r.compile_timeout == runner.compile_timeout,
            r.run_timeout == runner.run_timeout,
    {
        let input = match input {
            Some(text) => text,
            None => String::new(),
        };
        ExecutionRequest {
            lang,
            code,
            input,
            compile_timeout: runner.compile_timeout,
            run_timeout: runner.run_timeout,
        }
    }
}

/// What the caller gets for the guest's answer.
pub open spec fn run_code_spec(answer: Option<Result<Output, RunError>>) -> Result<
    (Seq<char>, Seq<char>),
    ServiceError,
> {
    match answer {
        None => Err(ServiceError::ExecutionTimeout),
        Some(Err(e)) => Err(ServiceError::Run(e)),
        Some(Ok(output)) => match decode_output_spec(output) {
            Ok(texts) => Ok(texts),
            Err(e) => Err(ServiceError::Run(e)),
        },
    }
}

/// Concludes one call of the guest. `answer` is what came back, or `None`
/// where the call's deadline passed first. A call past its deadline is an
/// execution timeout; a failure of the guest is handed on; outputs are
/// returned as text, and fail the call where they are not valid UTF-8.
pub fn run_code(answer: Option<Result<Output, RunError>>) -> (r: Result<
    (String, String),
    ServiceError,
>)
    ensures
        match run_code_spec(answer) {
            Ok(texts) => r matches Ok(got) && got.0@ == texts.0 && got.1@ == texts.1,
            Err(e) => r == Err::<(String, String), ServiceError>(e),
        },
{
    match answer {
        None => Err(ServiceError::ExecutionTimeout),
        Some(Err(e)) => Err(ServiceError::Run(e)),
        Some(Ok(output)) => match decode_output(output) {
            Ok(texts) => Ok(texts),
            Err(e) => Err(ServiceError::Run(e)),
        },
    }
}

} // verus!
