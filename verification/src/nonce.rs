//! The resolution of an account's next index, step by step.
//!
//! The index is the one in state at the best block, plus the transactions of
//! the previous block that the account signed, moved on past the pool's ready
//! transactions of the account. Every query of one resolution names the block
//! that the first answer named.

use crate::delayed::{
    body_of, delayed_count, lemma_delayed_count_bound, number_of_delayed_txs, probe_window, probed, Signer,
};
use crate::error::{query_failure, Cause, CauseView, Error, Failure};
use crate::exchange::{Reply, ReplyView, Request, RequestView, Step, StepView};
use crate::pool::{checked_adjust_nonce, lookahead};
use crate::primitives::{views, AccountId, BlockHash, Index, Topology};
use crate::scale::{decode_index, encode_account, index_of_bytes};
use vstd::prelude::*;

verus! {

/// A resolution in flight: what it waits for, and what it knows so far.
#[derive(Clone, Copy, Debug, PartialEq, Eq)]
pub enum NonceQuery {
    /// Waits for the best block.
    Best { topology: Topology, account: AccountId },
    /// Waits for the account's index in state.
    State { account: AccountId, at: BlockHash },
    /// Waits for the previous block.
    Block { account: AccountId, at: BlockHash, nonce: Index },
    /// Waits for the signers of the `asked` transactions it named.
    Signers { account: AccountId, nonce: Index, asked: u32 },
    /// Waits for the header of the best block.
    Header { account: AccountId, at: BlockHash },
    /// Waits for the answer to the remote call.
    Call { account: AccountId },
    /// Waits for the pool's ready view.
    Pool { account: AccountId, nonce: Index },
}

impl View for NonceQuery {
    type V = NonceQuery;

    open spec fn view(&self) -> NonceQuery {
        *self
    }
}

/// The name of the runtime method that gives an account's index.
pub open spec fn nonce_method() -> Seq<char> {
    "AccountNonceApi_account_nonce"@
}

/// Where a resolution for `account` starts.
pub open spec fn nonce_begin(topology: Topology, account: AccountId) -> StepView<NonceQuery, Index> {
    StepView::Ask(NonceQuery::Best { topology, account }, RequestView::BestBlock)
}

/// Where `reply` takes a resolution that waits in `pending`, or nothing
/// where `reply` is not an answer to what `pending` asked, or would take the
/// index out of the range of `Index`.
pub open spec fn nonce_next(pending: NonceQuery, reply: ReplyView) -> Option<
    StepView<NonceQuery, Index>,
> {
    match (pending, reply) {
        (NonceQuery::Best { topology: Topology::Direct, account }, ReplyView::BestBlock(at)) => Some(
            StepView::Ask(NonceQuery::State { account, at }, RequestView::AccountNonce { at, account }),
        ),
        (NonceQuery::Best { topology: Topology::Remote, account }, ReplyView::BestBlock(at)) => Some(
            StepView::Ask(NonceQuery::Header { account, at }, RequestView::Header { at }),
        ),
        (NonceQuery::State { account, at }, ReplyView::AccountNonce(Ok(nonce))) => Some(
            StepView::Ask(NonceQuery::Block { account, at, nonce }, RequestView::PreviousBlock { at }),
        ),
        (NonceQuery::State { .. }, ReplyView::AccountNonce(Err(text))) => Some(
            StepView::Done(Err(query_failure(Error::RuntimeError, CauseView::Reported(text)))),
        ),
        (
            NonceQuery::Block { account, at, nonce },
            ReplyView::PreviousBlock { extrinsic_count, body },
        ) => {
            let transactions = probed(body_of(body), extrinsic_count);
            Some(
                StepView::Ask(
                    NonceQuery::Signers { account, nonce, asked: transactions.len() as u32 },
                    RequestView::Signers { at, transactions },
                ),
            )
        },
        (NonceQuery::Signers { account, nonce, asked }, ReplyView::Signers(probes)) => {
            let delayed = delayed_count(probes, account@);
            if probes.len() == asked && nonce + delayed <= Index::MAX {
                Some(
                    StepView::Ask(
                        NonceQuery::Pool { account, nonce: (nonce + delayed) as Index },
                        RequestView::ReadyTransactions,
                    ),
                )
            } else {
                None
            }
        },
        (NonceQuery::Header { account, at }, ReplyView::Header(Ok(Some(header)))) => Some(
            StepView::Ask(
                NonceQuery::Call { account },
                RequestView::RemoteCall { block: at, header, method: nonce_method(), call_data: account@ },
            ),
        ),
        (NonceQuery::Header { at, .. }, ReplyView::Header(Ok(None))) => Some(
            StepView::Done(Err(query_failure(Error::RuntimeError, CauseView::UnknownBlock(at)))),
        ),
        (NonceQuery::Header { .. }, ReplyView::Header(Err(text))) => Some(
            StepView::Done(Err(query_failure(Error::RuntimeError, CauseView::Reported(text)))),
        ),
        (NonceQuery::Call { account }, ReplyView::RemoteCall(Ok(bytes))) => if bytes.len() >= 4 {
            Some(
                StepView::Ask(
                    NonceQuery::Pool { account, nonce: index_of_bytes(bytes) },
                    RequestView::ReadyTransactions,
                ),
            )
        } else {
            Some(StepView::Done(Err(query_failure(Error::DecodeError, CauseView::Undecodable))))
        },
        (NonceQuery::Call { .. }, ReplyView::RemoteCall(Err(text))) => Some(
            StepView::Done(Err(query_failure(Error::RuntimeError, CauseView::Reported(text)))),
        ),
        (NonceQuery::Pool { account, nonce }, ReplyView::ReadyTransactions(ready)) => {
            let reached = lookahead(ready, account@, nonce as int);
            if reached <= Index::MAX {
                Some(StepView::Done(Ok(reached as Index)))
            } else {
                None
            }
        },
        _ => None,
    }
}

/// Where `reply` takes a resolution from `step`. A step that is done stays
/// as it is, and so does one that `reply` does not answer.
pub open spec fn nonce_after(step: StepView<NonceQuery, Index>, reply: ReplyView) -> StepView<
    NonceQuery,
    Index,
> {
    match step {
        StepView::Ask(pending, _) => match nonce_next(pending, reply) {
            Some(next) => next,
            None => step,
        },
        StepView::Done(_) => step,
    }
}

/// How many answers a resolution that waits in `pending` is from its end,
/// where none of them ends it early.
pub open spec fn steps_left(pending: NonceQuery) -> nat {
    match pending {
        NonceQuery::Best { topology: Topology::Direct, .. } => 5,
        NonceQuery::Best { topology: Topology::Remote, .. } => 4,
        NonceQuery::State { .. } => 4,
        NonceQuery::Block { .. } => 3,
        NonceQuery::Signers { .. } => 2,
        NonceQuery::Header { .. } => 3,
        NonceQuery::Call { .. } => 2,
        NonceQuery::Pool { .. } => 1,
    }
}

/// The block at which a resolution that waits in `pending` makes its
/// queries, once it knows it and as long as it has queries to make there.
pub open spec fn point_of(pending: NonceQuery) -> Option<BlockHash> {
    match pending {
        NonceQuery::State { at, .. } => Some(at),
        NonceQuery::Block { at, .. } => Some(at),
        NonceQuery::Header { at, .. } => Some(at),
        _ => None,
    }
}

/// The index that a resolution is to give: the index in state, plus the
/// probes of the previous block that count for the account, moved on past
/// the pool's ready view.
pub open spec fn resolved(
    account: Seq<u8>,
    base: Index,
    probes: Seq<Option<Signer>>,
    ready: Seq<Seq<Seq<u8>>>,
) -> int {
    lookahead(ready, account, base + delayed_count(probes, account))
}

impl NonceQuery {
    /// Starts a resolution for `account`: it asks for the best block.
    pub fn begin(topology: Topology, account: AccountId) -> (step: Step<NonceQuery, Index>)
        ensures
            step@ == nonce_begin(topology, account),
    {
        Step::Ask(NonceQuery::Best { topology, account }, Request::BestBlock)
    }

    /// Moves the resolution on by the host's answer. Where the answer is
    /// not one to what the resolution asked, or would take the index out of
    /// the range of `Index`, the resolution comes back as it was.
    pub fn resume(self, reply: Reply) -> (next: Result<Step<NonceQuery, Index>, NonceQuery>)
        ensures
            match nonce_next(self, reply@) {
                Some(step) => next matches Ok(taken) && taken@ == step,
                None => next == Err::<Step<NonceQuery, Index>, NonceQuery>(self),
            },
    {
        match (self, reply) {
            (NonceQuery::Best { topology: Topology::Direct, account }, Reply::BestBlock(at)) => Ok(
                Step::Ask(NonceQuery::State { account, at }, Request::AccountNonce { at, account }),
            ),
            (NonceQuery::Best { topology: Topology::Remote, account }, Reply::BestBlock(at)) => Ok(
                Step::Ask(NonceQuery::Header { account, at }, Request::Header { at }),
            ),
            (NonceQuery::State { account, at }, Reply::AccountNonce(Ok(nonce))) => Ok(
                Step::Ask(NonceQuery::Block { account, at, nonce }, Request::PreviousBlock { at }),
            ),
            (NonceQuery::State { .. }, Reply::AccountNonce(Err(text))) => Ok(
                Step::Done(Err(Failure::query(Error::RuntimeError, Cause::Reported(text)))),
            ),
            (
                NonceQuery::Block { account, at, nonce },
                Reply::PreviousBlock { extrinsic_count, body },
            ) => {
                let body = match body {
                    Some(transactions) => transactions,
                    None => {
                        let empty: Vec<Vec<u8>> = Vec::new();
                        assert(views(empty@) =~= Seq::empty());
                        empty
                    },
                };
                let transactions = probe_window(body, extrinsic_count);
                let asked = transactions.len() as u32;
                Ok(
                    Step::Ask(
                        NonceQuery::Signers { account, nonce, asked },
                        Request::Signers { at, transactions },
                    ),
                )
            },
            (NonceQuery::Signers { account, nonce, asked }, Reply::Signers(probes)) => {
                if probes.len() != asked as usize {
                    return Err(self);
                }
                proof {
                    lemma_delayed_count_bound(probes@, account@);
                }
                let delayed = number_of_delayed_txs(&probes, &account);
                if delayed > Index::MAX - nonce {
                    return Err(self);
                }
                Ok(
                    Step::Ask(
                        NonceQuery::Pool { account, nonce: nonce + delayed },
                        Request::ReadyTransactions,
                    ),
                )
            },
            (NonceQuery::Header { account, at }, Reply::Header(Ok(Some(header)))) => Ok(
                Step::Ask(
                    NonceQuery::Call { account },
                    Request::RemoteCall {
                        block: at,
                        header,
                        method: "AccountNonceApi_account_nonce".to_owned(),
                        call_data: encode_account(&account),
                    },
                ),
            ),
            (NonceQuery::Header { at, .. }, Reply::Header(Ok(None))) => Ok(
                Step::Done(Err(Failure::query(Error::RuntimeError, Cause::UnknownBlock(at)))),
            ),
            (NonceQuery::Header { .. }, Reply::Header(Err(text))) => Ok(
                Step::Done(Err(Failure::query(Error::RuntimeError, Cause::Reported(text)))),
            ),
            (NonceQuery::Call { account }, Reply::RemoteCall(Ok(bytes))) => match decode_index(
                bytes.as_slice(),
            ) {
                Some(nonce) => Ok(
                    Step::Ask(NonceQuery::Pool { account, nonce }, Request::ReadyTransactions),
                ),
                None => Ok(Step::Done(Err(Failure::query(Error::DecodeError, Cause::Undecodable)))),
            },
            (NonceQuery::Call { .. }, Reply::RemoteCall(Err(text))) => Ok(
                Step::Done(Err(Failure::query(Error::RuntimeError, Cause::Reported(text)))),
            ),
            (NonceQuery::Pool { account, nonce }, Reply::ReadyTransactions(ready)) => {
                match checked_adjust_nonce(&ready, &account, nonce) {
                    Some(index) => Ok(Step::Done(Ok(index))),
                    None => Err(self),
                }
            },
            _ => Err(self),
        }
    }
}

} // verus!
