//! The failures that callers see.

use crate::primitives::BlockHash;
use vstd::prelude::*;

verus! {

/// The category of a failure raised by this library.
#[derive(Clone, Copy, Debug, PartialEq, Eq, Structural)]
pub enum Error {
    /// The transaction or a remote answer was not decodable.
    DecodeError,
    /// The call to the runtime failed.
    RuntimeError,
}

impl From<Error> for i64 {
    fn from(e: Error) -> (code: i64) {
        match e {
            Error::RuntimeError => 1,
            Error::DecodeError => 2,
        }
    }
}

impl vstd::std_specs::convert::FromSpecImpl<Error> for i64 {
    open spec fn obeys_from_spec() -> bool {
        true
    }

    open spec fn from_spec(e: Error) -> i64 {
        match e {
            Error::RuntimeError => 1,
            Error::DecodeError => 2,
        }
    }
}

/// What lies behind a failure of the server, for the detail that goes with it.
#[derive(Clone, Debug, PartialEq, Eq)]
pub enum Cause {
    /// A collaborator failed; the text is its own account of the failure.
    Reported(String),
    /// No header is known for the block.
    UnknownBlock(BlockHash),
    /// A remote answer does not hold an index.
    Undecodable,
}

/// A `Cause`, with its text as a sequence of characters.
pub enum CauseView {
    Reported(Seq<char>),
    UnknownBlock(BlockHash),
    Undecodable,
}

impl View for Cause {
    type V = CauseView;

    open spec fn view(&self) -> CauseView {
        match self {
            Cause::Reported(text) => CauseView::Reported(text@),
            Cause::UnknownBlock(at) => CauseView::UnknownBlock(*at),
            Cause::Undecodable => CauseView::Undecodable,
        }
    }
}

/// A request that did not succeed. Nothing partial comes with it.
#[derive(Clone, Debug, PartialEq, Eq)]
pub enum Failure {
    /// The server failed: the category, a short message, and the cause.
    Server { category: Error, message: String, cause: Cause },
    /// The caller may not use unsafe methods.
    Forbidden,
    /// The method is not offered here.
    MethodNotFound { message: String },
}

/// A `Failure`, with its texts as sequences of characters.
pub enum FailureView {
    Server { category: Error, message: Seq<char>, cause: CauseView },
    Forbidden,
    MethodNotFound { message: Seq<char> },
}

impl View for Failure {
    type V = FailureView;

    open spec fn view(&self) -> FailureView {
        match self {
            Failure::Server { category, message, cause } => FailureView::Server {
                category: *category,
                message: message@,
                cause: cause@,
            },
            Failure::Forbidden => FailureView::Forbidden,
            Failure::MethodNotFound { message } => FailureView::MethodNotFound { message: message@ },
        }
    }
}

/// The message of every failure to resolve an index.
pub open spec fn query_message() -> Seq<char> {
    "Unable to query nonce."@
}

/// The message of every failure of a dry run.
pub open spec fn dry_run_message() -> Seq<char> {
    "Unable to dry run extrinsic."@
}

/// The failure of a query for an index, in the given category.
pub open spec fn query_failure(category: Error, cause: CauseView) -> FailureView {
    FailureView::Server { category, message: query_message(), cause }
}

/// The failure of a dry run, in the given category.
pub open spec fn dry_run_failure(category: Error, cause: CauseView) -> FailureView {
    FailureView::Server { category, message: dry_run_message(), cause }
}

impl Failure {
    /// The failure of a query for an index.
    pub fn query(category: Error, cause: Cause) -> (failure: Failure)
        ensures
            failure@ == query_failure(category, cause@),
    {
        Failure::Server { category, message: "Unable to query nonce.".to_owned(), cause }
    }

    /// The failure of a dry run.
    pub fn dry_run(category: Error, cause: Cause) -> (failure: Failure)
        ensures
            failure@ == dry_run_failure(category, cause@),
    {
        Failure::Server { category, message: "Unable to dry run extrinsic.".to_owned(), cause }
    }

    /// The failure of a dry run where none is offered.
    pub fn unavailable() -> (failure: Failure)
        ensures
            failure@ == (FailureView::MethodNotFound { message: dry_run_message() }),
    {
        Failure::MethodNotFound { message: "Unable to dry run extrinsic.".to_owned() }
    }

    /// The category of a failure of the server; other failures have none.
    pub fn category(&self) -> (category: Option<Error>)
        ensures
            category == match self@ {
                FailureView::Server { category, .. } => Some(category),
                _ => None,
            },
    {
        match self {
            Failure::Server { category, .. } => Some(*category),
            _ => None,
        }
    }
}

} // verus!
