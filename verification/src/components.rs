//! The component endpoint: a reference comes in, a redirect or a refusal goes out.

use crate::reply::{Reply, BAD_REQUEST};
use crate::resolver::{resolution_of, resolve, Resolution};
use vstd::prelude::*;

verus! {

/// How a request for a component ended.
#[derive(Debug, Clone, Copy, PartialEq, Eq)]
pub enum Outcome {
    Success,
    InvalidFormat,
}

/// The name under which an outcome is counted.
pub open spec fn label_of(outcome: Outcome) -> Seq<char> {
    match outcome {
        Outcome::Success => "success"@,
        Outcome::InvalidFormat => "invalid_format"@,
    }
}

/// The body of the reply to a reference that is not of the grammar.
pub open spec fn invalid_format_body() -> Seq<char> {
    "Invalid filename format. Expected format: <publisher>.<name>.<version>.tar"@
}

/// The log line for a reference that was redirected to `target`.
pub open spec fn redirected_line(target: Seq<char>) -> Seq<char> {
    "Component download request redirected to: "@ + target
}

/// The log line for a reference that was turned down.
pub open spec fn rejected_line(reference: Seq<char>) -> Seq<char> {
    "Received invalid filename in component download request: "@ + reference
}

/// What a request for a component leads to: the reply to give, and what to
/// count and to log.
#[derive(Debug)]
pub struct Handled {
    pub reply: Reply,
    pub outcome: Outcome,
    /// The resolved reference, whose fields label the download counter.
    pub resolution: Option<Resolution>,
    pub log_line: String,
}

/// `handled` is what the request for `reference` leads to.
pub open spec fn handles(reference: Seq<char>, handled: Handled) -> bool {
    match resolution_of(reference) {
        Some(resolved) => {
            &&& handled.outcome == Outcome::Success
            &&& handled.reply.redirects_to(resolved.target)
            &&& handled.resolution matches Some(resolution) && resolution@ == resolved
            &&& handled.log_line@ == redirected_line(resolved.target)
        },
        None => {
            &&& handled.outcome == Outcome::InvalidFormat
            &&& handled.reply.says(BAD_REQUEST, invalid_format_body())
            &&& handled.resolution is None
            &&& handled.log_line@ == rejected_line(reference)
        },
    }
}

impl Outcome {
    /// The name under which the outcome is counted.
    pub fn label(&self) -> (label: &'static str)
        ensures
            label@ == label_of(*self),
    {
        match self {
            Outcome::Success => "success",
            Outcome::InvalidFormat => "invalid_format",
        }
    }
}

/// Answers the request for the component that `reference` names: a redirect
/// to its download location where the reference is of the grammar, and a
/// refusal with the expected format where it is not.
pub fn redirect_to_github(reference: &str) -> (handled: Handled)
    ensures
        handles(reference@, handled),
{
    match resolve(reference) {
        Ok(resolution) => {
            let mut log_line = String::from_str("Component download request redirected to: ");
            log_line.append(resolution.target.as_str());
            Handled {
                reply: Reply::found(resolution.target.clone()),
                outcome: Outcome::Success,
                resolution: Some(resolution),
                log_line,
            }
        },
        Err(_) => {
            let mut log_line = String::from_str(
                "Received invalid filename in component download request: ",
            );
            log_line.append(reference);
            Handled {
                reply: Reply::plain(
                    BAD_REQUEST,
                    String::from_str(
                        "Invalid filename format. Expected format: <publisher>.<name>.<version>.tar",
                    ),
                ),
                outcome: Outcome::InvalidFormat,
                resolution: None,
                log_line,
            }
        },
    }
}

} // verus!
