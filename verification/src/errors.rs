//! Typed errors for the run-orchestration core.
//!
//! Every expected failure of a run is one of four kinds, each carrying a
//! wrapping context and the root cause, so that the top-level reporter can
//! print the full causal chain exactly once.

use vstd::prelude::*;
use vstd::string::StringExecFns;

verus! {

/// The kind of an expected failure, as a plain closed enumeration.
#[derive(Clone, Copy, Debug, PartialEq, Eq, Structural)]
pub enum ErrorKind {
    /// A malformed or invalid user-supplied value.
    Argument,
    /// An input path that cannot be read, or an output path that cannot be
    /// written or already exists without overwrite permission.
    Path,
    /// A requested output format with no implemented conversion route.
    NotImplemented,
    /// A failure reported by the conversion worker.
    Conversion,
}

/// An expected, typed failure: a kind, a wrapping context, and the root
/// cause. `cause` may be empty when the context alone states the failure.
#[derive(Debug)]
pub struct CliError {
    pub kind: ErrorKind,
    pub context: String,
    pub cause: String,
}

/// The rendered message of an error: the context, then `: `, then the root
/// cause, or the context alone when there is no recorded cause.
pub open spec fn error_message(kind: ErrorKind, context: Seq<char>, cause: Seq<char>) -> Seq<char> {
    if cause.len() == 0 {
        context
    } else {
        context + ": "@ + cause
    }
}

impl CliError {
    /// The error's full causal chain as one line of text.
    pub fn message(&self) -> (r: String)
        ensures
            r@ == error_message(self.kind, self.context@, self.cause@),
    {
        if self.cause.as_str().unicode_len() == 0 {
            let r = self.context.clone();
            proof {
                assert(r@ =~= error_message(self.kind, self.context@, self.cause@));
            }
            r
        } else {
            let mut r = self.context.clone();
            r.append(": ");
            r.append(self.cause.as_str());
            proof {
                assert(r@ =~= error_message(self.kind, self.context@, self.cause@));
            }
            r
        }
    }

    /// Build an error from a kind, a context and a cause.
    pub fn new(kind: ErrorKind, context: String, cause: String) -> (r: CliError)
        ensures
            r.kind == kind,
            r.context == context,
            r.cause == cause,
    {
        CliError { kind, context, cause }
    }
}

} // verus!
