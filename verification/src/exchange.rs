//! What a request in flight asks of its host, and what the host answers.
//!
//! The library performs no query itself. A request in flight is a value: it
//! names the one thing it waits for, the host does that thing, and the answer
//! moves the request on.

use crate::delayed::Signer;
use crate::error::{Failure, FailureView};
use crate::pool::{ready_view, ReadyTransaction};
use crate::primitives::{views, AccountId, BlockHash, Index};
use vstd::prelude::*;

verus! {

/// What the host is asked to do.
#[derive(Clone, Debug, PartialEq, Eq)]
pub enum Request {
    /// Name the best block.
    BestBlock,
    /// Query the state at `at` for the index of `account`.
    AccountNonce { at: BlockHash, account: AccountId },
    /// Give the extrinsic count of the header of `at`, and its body.
    PreviousBlock { at: BlockHash },
    /// Probe each of `transactions` for its signer, in the context of `at`,
    /// one after the other, each in a scope of its own that `Probe::settle`
    /// ends before the next one starts.
    Signers { at: BlockHash, transactions: Vec<Vec<u8>> },
    /// Resolve the header of `at` from afar.
    Header { at: BlockHash },
    /// Call `method` with `call_data` on the state of `block` from afar.
    RemoteCall { block: BlockHash, header: Vec<u8>, method: String, call_data: Vec<u8> },
    /// Give the pool's ready view.
    ReadyTransactions,
    /// Decode `extrinsic` in the context of `at` and apply it there, keeping
    /// nothing of what it does.
    Apply { at: BlockHash, extrinsic: Vec<u8> },
}

/// A `Request`, with its bytes and texts as sequences.
pub enum RequestView {
    BestBlock,
    AccountNonce { at: BlockHash, account: AccountId },
    PreviousBlock { at: BlockHash },
    Signers { at: BlockHash, transactions: Seq<Seq<u8>> },
    Header { at: BlockHash },
    RemoteCall { block: BlockHash, header: Seq<u8>, method: Seq<char>, call_data: Seq<u8> },
    ReadyTransactions,
    Apply { at: BlockHash, extrinsic: Seq<u8> },
}

impl View for Request {
    type V = RequestView;

    open spec fn view(&self) -> RequestView {
        match self {
            Request::BestBlock => RequestView::BestBlock,
            Request::AccountNonce { at, account } => RequestView::AccountNonce {
                at: *at,
                account: *account,
            },
            Request::PreviousBlock { at } => RequestView::PreviousBlock { at: *at },
            Request::Signers { at, transactions } => RequestView::Signers {
                at: *at,
                transactions: views(transactions@),
            },
            Request::Header { at } => RequestView::Header { at: *at },
            Request::RemoteCall { block, header, method, call_data } => RequestView::RemoteCall {
                block: *block,
                header: header@,
                method: method@,
                call_data: call_data@,
            },
            Request::ReadyTransactions => RequestView::ReadyTransactions,
            Request::Apply { at, extrinsic } => RequestView::Apply { at: *at, extrinsic: extrinsic@ },
        }
    }
}

/// What applying a transaction for a dry run gave.
#[derive(Clone, Debug, PartialEq, Eq)]
pub enum Applied {
    /// The runtime applied it; the bytes are its encoded outcome.
    Outcome(Vec<u8>),
    /// The bytes do not decode to a transaction; the text is the decoder's
    /// account of it.
    Malformed(String),
    /// The runtime could not be called; the text is its account of it.
    Failed(String),
}

/// An `Applied`, with its bytes and texts as sequences.
pub enum AppliedView {
    Outcome(Seq<u8>),
    Malformed(Seq<char>),
    Failed(Seq<char>),
}

impl View for Applied {
    type V = AppliedView;

    open spec fn view(&self) -> AppliedView {
        match self {
            Applied::Outcome(bytes) => AppliedView::Outcome(bytes@),
            Applied::Malformed(text) => AppliedView::Malformed(text@),
            Applied::Failed(text) => AppliedView::Failed(text@),
        }
    }
}

/// What the host answers. A failure of a collaborator comes as the text of
/// its own account of it.
#[derive(Debug, PartialEq, Eq)]
pub enum Reply {
    /// The best block.
    BestBlock(BlockHash),
    /// The index of the account in state.
    AccountNonce(Result<Index, String>),
    /// The header's extrinsic count, and the body where the block has one.
    PreviousBlock { extrinsic_count: u32, body: Option<Vec<Vec<u8>>> },
    /// What left the scope of each probe, in the order of the transactions.
    Signers(Vec<Option<Signer>>),
    /// The encoded header, or nothing where the block is unknown.
    Header(Result<Option<Vec<u8>>, String>),
    /// The bytes that the remote call returned.
    RemoteCall(Result<Vec<u8>, String>),
    /// The pool's ready view, in its order.
    ReadyTransactions(Vec<ReadyTransaction>),
    /// What applying the transaction gave.
    Applied(Applied),
}

/// A `Reply`, with its bytes and texts as sequences.
pub enum ReplyView {
    BestBlock(BlockHash),
    AccountNonce(Result<Index, Seq<char>>),
    PreviousBlock { extrinsic_count: u32, body: Option<Seq<Seq<u8>>> },
    Signers(Seq<Option<Signer>>),
    Header(Result<Option<Seq<u8>>, Seq<char>>),
    RemoteCall(Result<Seq<u8>, Seq<char>>),
    ReadyTransactions(Seq<Seq<Seq<u8>>>),
    Applied(AppliedView),
}

impl View for Reply {
    type V = ReplyView;

    open spec fn view(&self) -> ReplyView {
        match self {
            Reply::BestBlock(at) => ReplyView::BestBlock(*at),
            Reply::AccountNonce(answer) => ReplyView::AccountNonce(
                match answer {
                    Ok(index) => Ok(*index),
                    Err(text) => Err(text@),
                },
            ),
            Reply::PreviousBlock { extrinsic_count, body } => ReplyView::PreviousBlock {
                extrinsic_count: *extrinsic_count,
                body: match body {
                    Some(transactions) => Some(views(transactions@)),
                    None => None,
                },
            },
            Reply::Signers(probes) => ReplyView::Signers(probes@),
            Reply::Header(answer) => ReplyView::Header(
                match answer {
                    Ok(Some(header)) => Ok(Some(header@)),
                    Ok(None) => Ok(None),
                    Err(text) => Err(text@),
                },
            ),
            Reply::RemoteCall(answer) => ReplyView::RemoteCall(
                match answer {
                    Ok(bytes) => Ok(bytes@),
                    Err(text) => Err(text@),
                },
            ),
            Reply::ReadyTransactions(ready) => ReplyView::ReadyTransactions(ready_view(ready@)),
            Reply::Applied(applied) => ReplyView::Applied(applied@),
        }
    }
}

/// Where a request stands: it is done, with its result, or it waits in state
/// `P` for the host to do one thing.
#[derive(Debug, PartialEq, Eq)]
pub enum Step<P, T> {
    /// The request is over.
    Done(Result<T, Failure>),
    /// The request waits for the answer to what it asks.
    Ask(P, Request),
}

/// A `Step`, with its parts as their views.
pub enum StepView<P, T> {
    Done(Result<T, FailureView>),
    Ask(P, RequestView),
}

impl<P: View, T: View> View for Step<P, T> {
    type V = StepView<P::V, T::V>;

    open spec fn view(&self) -> StepView<P::V, T::V> {
        match self {
            Step::Done(Ok(value)) => StepView::Done(Ok(value@)),
            Step::Done(Err(failure)) => StepView::Done(Err(failure@)),
            Step::Ask(pending, request) => StepView::Ask(pending@, request@),
        }
    }
}

/// The block that a request names, where it names one.
pub open spec fn named(request: RequestView) -> Option<BlockHash> {
    match request {
        RequestView::AccountNonce { at, .. } => Some(at),
        RequestView::PreviousBlock { at } => Some(at),
        RequestView::Signers { at, .. } => Some(at),
        RequestView::Header { at } => Some(at),
        RequestView::RemoteCall { block, .. } => Some(block),
        RequestView::Apply { at, .. } => Some(at),
        RequestView::BestBlock => None,
        RequestView::ReadyTransactions => None,
    }
}

/// What a step asks of the host, where it asks anything.
pub open spec fn asked<P, T>(step: StepView<P, T>) -> Option<RequestView> {
    match step {
        StepView::Ask(_, request) => Some(request),
        StepView::Done(_) => None,
    }
}

} // verus!
