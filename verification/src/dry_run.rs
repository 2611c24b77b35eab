//! The dry run of a transaction, step by step.
//!
//! A dry run is for callers that may use unsafe methods, and only where state
//! is at hand. The outcome that the runtime encoded is handed on as it came.

use crate::error::{dry_run_failure, dry_run_message, Cause, CauseView, Error, Failure, FailureView};
use crate::exchange::{Applied, AppliedView, Reply, ReplyView, Request, RequestView, Step, StepView};
use crate::policy::DenyUnsafe;
use crate::primitives::{BlockHash, Topology};
use vstd::prelude::*;

verus! {

/// A dry run in flight: what it waits for.
#[derive(Clone, Debug, PartialEq, Eq)]
pub enum DryRun {
    /// Waits for the best block, to apply `extrinsic` there.
    Best { extrinsic: Vec<u8> },
    /// Waits for what applying the transaction gives.
    Applying,
}

/// A `DryRun`, with its bytes as a sequence.
pub enum DryRunView {
    Best { extrinsic: Seq<u8> },
    Applying,
}

impl View for DryRun {
    type V = DryRunView;

    open spec fn view(&self) -> DryRunView {
        match self {
            DryRun::Best { extrinsic } => DryRunView::Best { extrinsic: extrinsic@ },
            DryRun::Applying => DryRunView::Applying,
        }
    }
}

/// Where a dry run of `extrinsic` starts. Without state at hand there is no
/// such method. A caller kept from unsafe methods is turned away before
/// anything is asked of the host. Otherwise the transaction is applied at
/// `at`, or at the best block where no block is named.
pub open spec fn dry_run_begin(
    topology: Topology,
    deny_unsafe: DenyUnsafe,
    extrinsic: Seq<u8>,
    at: Option<BlockHash>,
) -> StepView<DryRunView, Seq<u8>> {
    match topology {
        Topology::Remote => StepView::Done(Err(FailureView::MethodNotFound { message: dry_run_message() })),
        Topology::Direct => match deny_unsafe {
            DenyUnsafe::Yes => StepView::Done(Err(FailureView::Forbidden)),
            DenyUnsafe::No => match at {
                Some(at) => StepView::Ask(DryRunView::Applying, RequestView::Apply { at, extrinsic }),
                None => StepView::Ask(DryRunView::Best { extrinsic }, RequestView::BestBlock),
            },
        },
    }
}

/// Where `reply` takes a dry run that waits in `pending`, or nothing where
/// `reply` is not an answer to what `pending` asked.
pub open spec fn dry_run_next(pending: DryRunView, reply: ReplyView) -> Option<
    StepView<DryRunView, Seq<u8>>,
> {
    match (pending, reply) {
        (DryRunView::Best { extrinsic }, ReplyView::BestBlock(at)) => Some(
            StepView::Ask(DryRunView::Applying, RequestView::Apply { at, extrinsic }),
        ),
        (DryRunView::Applying, ReplyView::Applied(AppliedView::Outcome(bytes))) => Some(
            StepView::Done(Ok(bytes)),
        ),
        (DryRunView::Applying, ReplyView::Applied(AppliedView::Malformed(text))) => Some(
            StepView::Done(Err(dry_run_failure(Error::DecodeError, CauseView::Reported(text)))),
        ),
        (DryRunView::Applying, ReplyView::Applied(AppliedView::Failed(text))) => Some(
            StepView::Done(Err(dry_run_failure(Error::RuntimeError, CauseView::Reported(text)))),
        ),
        _ => None,
    }
}

/// Where `reply` takes a dry run from `step`. A step that is done stays as
/// it is, and so does one that `reply` does not answer.
pub open spec fn dry_run_after(step: StepView<DryRunView, Seq<u8>>, reply: ReplyView) -> StepView<
    DryRunView,
    Seq<u8>,
> {
    match step {
        StepView::Ask(pending, _) => match dry_run_next(pending, reply) {
            Some(next) => next,
            None => step,
        },
        StepView::Done(_) => step,
    }
}

impl DryRun {
    /// Starts a dry run of `extrinsic` at `at`, or at the best block.
    pub fn begin(
        topology: Topology,
        deny_unsafe: DenyUnsafe,
        extrinsic: Vec<u8>,
        at: Option<BlockHash>,
    ) -> (step: Step<DryRun, Vec<u8>>)
        ensures
            step@ == dry_run_begin(topology, deny_unsafe, extrinsic@, at),
    {
        match topology {
            Topology::Remote => Step::Done(Err(Failure::unavailable())),
            Topology::Direct => match deny_unsafe.check_if_safe() {
                Err(failure) => Step::Done(Err(failure)),
                Ok(()) => match at {
                    Some(at) => Step::Ask(DryRun::Applying, Request::Apply { at, extrinsic }),
                    None => Step::Ask(DryRun::Best { extrinsic }, Request::BestBlock),
                },
            },
        }
    }

    /// Moves the dry run on by the host's answer. Where the answer is not
    /// one to what the dry run asked, the dry run comes back as it was.
    pub fn resume(self, reply: Reply) -> (next: Result<Step<DryRun, Vec<u8>>, DryRun>)
        ensures
            match dry_run_next(self@, reply@) {
                Some(step) => next matches Ok(taken) && taken@ == step,
                None => next matches Err(pending) && pending@ == self@,
            },
    {
        match (self, reply) {
            (DryRun::Best { extrinsic }, Reply::BestBlock(at)) => Ok(
                Step::Ask(DryRun::Applying, Request::Apply { at, extrinsic }),
            ),
            (DryRun::Applying, Reply::Applied(Applied::Outcome(bytes))) => Ok(Step::Done(Ok(bytes))),
            (DryRun::Applying, Reply::Applied(Applied::Malformed(text))) => Ok(
                Step::Done(Err(Failure::dry_run(Error::DecodeError, Cause::Reported(text)))),
            ),
            (DryRun::Applying, Reply::Applied(Applied::Failed(text))) => Ok(
                Step::Done(Err(Failure::dry_run(Error::RuntimeError, Cause::Reported(text)))),
            ),
            (pending, _) => Err(pending),
        }
    }
}

} // verus!
