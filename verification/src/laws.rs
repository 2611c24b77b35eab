//! What holds of every resolution and of every dry run.

use crate::delayed::{body_of, delayed_count, lemma_delayed_count_bound, probed, Signer};
use crate::dry_run::{dry_run_after, dry_run_begin, DryRunView};
use crate::error::{dry_run_failure, CauseView, Error, FailureView};
use crate::exchange::{asked, named, AppliedView, ReplyView, RequestView, StepView};
use crate::nonce::{
    nonce_after, nonce_begin, nonce_method, nonce_next, point_of, resolved, steps_left, NonceQuery,
};
use crate::pool::{lemma_lookahead_bounds, lookahead, provides_tag};
use crate::policy::DenyUnsafe;
use crate::primitives::{AccountId, BlockHash, Index, Topology};
use crate::scale::{index_bytes, index_of_bytes, lemma_index_round_trip, lemma_tag_injective};
use vstd::prelude::*;

verus! {

/// Whether `positions` names, in the order of the view, transactions that
/// provide the tags of `account` for `nonce`, `nonce + 1` and so on, one for
/// each index without a gap.
pub open spec fn chained(
    ready: Seq<Seq<Seq<u8>>>,
    account: Seq<u8>,
    nonce: int,
    positions: Seq<int>,
) -> bool {
    &&& forall|j: int| 0 <= j < positions.len() ==> 0 <= #[trigger] positions[j] < ready.len()
    &&& forall|i: int, j: int|
        0 <= i < j < positions.len() ==> #[trigger] positions[i] < #[trigger] positions[j]
    &&& forall|j: int|
        0 <= j < positions.len() ==> provides_tag(ready[#[trigger] positions[j]], account, nonce + j)
}

/// Whether no transaction of the view provides the tag of `account` for `nonce`.
pub open spec fn missing(ready: Seq<Seq<Seq<u8>>>, account: Seq<u8>, nonce: int) -> bool {
    forall|i: int| 0 <= i < ready.len() ==> !provides_tag(#[trigger] ready[i], account, nonce)
}

/// Whether a transaction's first tag is that of an account other than `account`.
pub open spec fn tagged_for_another(tx: Seq<Seq<u8>>, account: AccountId) -> bool {
    exists|other: AccountId, nonce: int| other@ != account@ && provides_tag(tx, other@, nonce)
}

/// Transactions that provide the tags of consecutive indices from `nonce`
/// on, in the order of the view, carry the resolution past all of them.
pub proof fn lemma_chain_is_followed(
    ready: Seq<Seq<Seq<u8>>>,
    account: Seq<u8>,
    nonce: int,
    positions: Seq<int>,
)
    requires
        chained(ready, account, nonce, positions),
    ensures
        lookahead(ready, account, nonce) >= nonce + positions.len(),
    decreases ready.len(),
{
    if positions.len() == 0 {
        lemma_lookahead_bounds(ready, account, nonce, 0);
    } else {
        let k = positions.len() - 1;
        assert(0 <= positions[k] < ready.len());
        let rest = ready.drop_last();
        let reached = lookahead(rest, account, nonce);
        if positions[k] == ready.len() - 1 {
            let shorter = positions.drop_last();
            assert(chained(rest, account, nonce, shorter)) by {
                assert forall|j: int| 0 <= j < shorter.len() implies 0 <= #[trigger] shorter[j]
                    < rest.len() && provides_tag(rest[shorter[j]], account, nonce + j) by {
                    assert(shorter[j] == positions[j]);
                    assert(positions[j] < positions[k]);
                }
                assert forall|i: int, j: int| 0 <= i < j < shorter.len() implies #[trigger] shorter[i]
                    < #[trigger] shorter[j] by {
                    assert(shorter[i] == positions[i] && shorter[j] == positions[j]);
                }
            }
            lemma_chain_is_followed(rest, account, nonce, shorter);
            if reached == nonce + k {
                assert(provides_tag(ready[positions[k]], account, nonce + k));
            }
        } else {
            assert(chained(rest, account, nonce, positions)) by {
                assert forall|j: int| 0 <= j < positions.len() implies 0 <= #[trigger] positions[j]
                    < rest.len() && provides_tag(rest[positions[j]], account, nonce + j) by {
                    if j < k {
                        assert(positions[j] < positions[k]);
                    }
                }
            }
            lemma_chain_is_followed(rest, account, nonce, positions);
        }
    }
}

/// A resolution does not pass an index whose tag no transaction provides.
pub proof fn lemma_gap_is_not_passed(ready: Seq<Seq<Seq<u8>>>, account: Seq<u8>, nonce: int, gap: int)
    requires
        nonce <= gap,
        missing(ready, account, gap),
    ensures
        lookahead(ready, account, nonce) <= gap,
    decreases ready.len(),
{
    if ready.len() > 0 {
        let rest = ready.drop_last();
        assert(missing(rest, account, gap)) by {
            assert forall|i: int| 0 <= i < rest.len() implies !provides_tag(
                #[trigger] rest[i],
                account,
                gap,
            ) by {
                assert(rest[i] == ready[i]);
            }
        }
        lemma_gap_is_not_passed(rest, account, nonce, gap);
        assert(!provides_tag(ready[ready.len() - 1], account, gap));
    }
}

/// Gap-free chaining: where the view holds, in its order, transactions for
/// each index from `nonce` up to the one before `nonce + positions.len()`,
/// and none for that one, the resolution yields exactly that index.
pub proof fn lemma_gap_free_chaining(
    ready: Seq<Seq<Seq<u8>>>,
    account: Seq<u8>,
    nonce: int,
    positions: Seq<int>,
)
    requires
        chained(ready, account, nonce, positions),
        missing(ready, account, nonce + positions.len()),
    ensures
        lookahead(ready, account, nonce) == nonce + positions.len(),
{
    lemma_chain_is_followed(ready, account, nonce, positions);
    lemma_gap_is_not_passed(ready, account, nonce, nonce + positions.len());
}

/// Stop at a gap: where a transaction provides the tag for `nonce` and none
/// provides the tag for `nonce + 1`, the resolution yields `nonce + 1`,
/// whatever later indices the view holds.
pub proof fn lemma_stop_at_gap(ready: Seq<Seq<Seq<u8>>>, account: Seq<u8>, nonce: int, position: int)
    requires
        0 <= position < ready.len(),
        provides_tag(ready[position], account, nonce),
        missing(ready, account, nonce + 1),
    ensures
        lookahead(ready, account, nonce) == nonce + 1,
{
    let positions = seq![position];
    assert(chained(ready, account, nonce, positions));
    lemma_gap_free_chaining(ready, account, nonce, positions);
}

/// No gap ahead: every index that a resolution passes is the index of a
/// transaction of the view.
pub proof fn lemma_no_gap_is_left(ready: Seq<Seq<Seq<u8>>>, account: Seq<u8>, nonce: int, passed: int)
    requires
        nonce <= passed < lookahead(ready, account, nonce),
    ensures
        exists|i: int| 0 <= i < ready.len() && provides_tag(#[trigger] ready[i], account, passed),
    decreases ready.len(),
{
    let rest = ready.drop_last();
    let reached = lookahead(rest, account, nonce);
    if passed < reached {
        lemma_no_gap_is_left(rest, account, nonce, passed);
        let i = choose|i: int| 0 <= i < rest.len() && provides_tag(#[trigger] rest[i], account, passed);
        assert(ready[i] == rest[i]);
    } else {
        assert(provides_tag(ready[ready.len() - 1], account, passed));
    }
}

/// Whether the transactions of the view that carry tags of `account` stand
/// in the order of their indices.
pub open spec fn ordered(ready: Seq<Seq<Seq<u8>>>, account: Seq<u8>) -> bool {
    forall|i: int, j: int, m: int, n: int|
        0 <= i < j < ready.len() && #[trigger] provides_tag(ready[i], account, m)
            && #[trigger] provides_tag(ready[j], account, n) ==> m <= n
}

/// No collision: where the view holds the account's transactions in the
/// order of their indices, the index that a resolution yields is the index
/// of none of them.
pub proof fn lemma_no_collision(ready: Seq<Seq<Seq<u8>>>, account: Seq<u8>, nonce: int)
    requires
        ordered(ready, account),
    ensures
        missing(ready, account, lookahead(ready, account, nonce)),
    decreases ready.len(),
{
    if ready.len() > 0 {
        let rest = ready.drop_last();
        let last = ready.len() - 1;
        let reached = lookahead(rest, account, nonce);
        let yielded = lookahead(ready, account, nonce);
        assert(ordered(rest, account)) by {
            assert forall|i: int, j: int, m: int, n: int|
                0 <= i < j < rest.len() && #[trigger] provides_tag(rest[i], account, m)
                    && #[trigger] provides_tag(rest[j], account, n) implies m <= n by {
                assert(rest[i] == ready[i] && rest[j] == ready[j]);
            }
        }
        lemma_no_collision(rest, account, nonce);
        assert forall|i: int| 0 <= i < ready.len() implies !provides_tag(
            #[trigger] ready[i],
            account,
            yielded,
        ) by {
            if provides_tag(ready[i], account, yielded) {
                if i < last {
                    assert(rest[i] == ready[i]);
                    assert(provides_tag(ready[last], account, reached));
                } else {
                    lemma_tag_injective(account, reached as Index, account, yielded as Index);
                }
            }
        }
    }
}

/// A resolution that starts at a higher index does not end at a lower one.
pub proof fn lemma_lookahead_is_monotone(ready: Seq<Seq<Seq<u8>>>, account: Seq<u8>, lower: int, higher: int)
    requires
        lower <= higher,
    ensures
        lookahead(ready, account, lower) <= lookahead(ready, account, higher),
    decreases ready.len(),
{
    if ready.len() > 0 {
        lemma_lookahead_is_monotone(ready.drop_last(), account, lower, higher);
    }
}

/// A tag of one account is the tag of no other, whatever the indices.
pub proof fn lemma_foreign_tag_never_matches(tx: Seq<Seq<u8>>, account: AccountId, nonce: int)
    requires
        tagged_for_another(tx, account),
    ensures
        !provides_tag(tx, account@, nonce),
{
    let (other, index) = choose|other: AccountId, index: int|
        other@ != account@ && provides_tag(tx, other@, index);
    if 0 <= nonce <= Index::MAX {
        lemma_tag_injective(other@, index as Index, account@, nonce as Index);
    }
}

/// Cross-account isolation: a transaction tagged for another account,
/// wherever it stands in the view, does not change what the resolution yields.
pub proof fn lemma_foreign_transaction_is_skipped(
    ready: Seq<Seq<Seq<u8>>>,
    account: AccountId,
    nonce: int,
    position: int,
    tx: Seq<Seq<u8>>,
)
    requires
        0 <= position <= ready.len(),
        tagged_for_another(tx, account),
    ensures
        lookahead(ready.insert(position, tx), account@, nonce) == lookahead(ready, account@, nonce),
    decreases ready.len(),
{
    let with = ready.insert(position, tx);
    if position == ready.len() {
        assert(with.drop_last() =~= ready);
        lemma_foreign_tag_never_matches(tx, account, lookahead(ready, account@, nonce));
    } else {
        assert(with.drop_last() =~= ready.drop_last().insert(position, tx));
        assert(with.last() == ready.last());
        lemma_foreign_transaction_is_skipped(ready.drop_last(), account, nonce, position, tx);
    }
}

/// Cross-account isolation: a view of transactions that are all tagged for
/// other accounts leaves the index where it was.
pub proof fn lemma_cross_account_isolation(ready: Seq<Seq<Seq<u8>>>, account: AccountId, nonce: int)
    requires
        forall|i: int| 0 <= i < ready.len() ==> tagged_for_another(#[trigger] ready[i], account),
    ensures
        lookahead(ready, account@, nonce) == nonce,
    decreases ready.len(),
{
    if ready.len() > 0 {
        let rest = ready.drop_last();
        assert forall|i: int| 0 <= i < rest.len() implies tagged_for_another(
            #[trigger] rest[i],
            account,
        ) by {
            assert(rest[i] == ready[i]);
        }
        lemma_cross_account_isolation(rest, account, nonce);
        lemma_foreign_tag_never_matches(ready[ready.len() - 1], account, nonce);
    }
}

/// The header bounds the count: no more transactions count for an account
/// than the header accounts for, nor more than the body holds, so that the
/// count fits 32 bits.
pub proof fn lemma_delayed_within_header(
    body: Seq<Seq<u8>>,
    extrinsic_count: u32,
    probes: Seq<Option<Signer>>,
    account: Seq<u8>,
)
    requires
        probes.len() == probed(body, extrinsic_count).len(),
    ensures
        delayed_count(probes, account) <= extrinsic_count <= u32::MAX,
        delayed_count(probes, account) <= body.len(),
{
    lemma_delayed_count_bound(probes, account);
}

/// Where a resolution with state at hand stands after the host has answered
/// each of its requests in turn.
pub open spec fn direct_run(
    account: AccountId,
    best: BlockHash,
    base: Index,
    extrinsic_count: u32,
    body: Option<Seq<Seq<u8>>>,
    probes: Seq<Option<Signer>>,
    ready: Seq<Seq<Seq<u8>>>,
) -> StepView<NonceQuery, Index> {
    let step = nonce_begin(Topology::Direct, account);
    let step = nonce_after(step, ReplyView::BestBlock(best));
    let step = nonce_after(step, ReplyView::AccountNonce(Ok(base)));
    let step = nonce_after(step, ReplyView::PreviousBlock { extrinsic_count, body });
    let step = nonce_after(step, ReplyView::Signers(probes));
    nonce_after(step, ReplyView::ReadyTransactions(ready))
}

/// Where a resolution that fetches state from afar stands after the host
/// has answered each of its requests in turn.
pub open spec fn remote_run(
    account: AccountId,
    best: BlockHash,
    header: Seq<u8>,
    answer: Seq<u8>,
    ready: Seq<Seq<Seq<u8>>>,
) -> StepView<NonceQuery, Index> {
    let step = nonce_begin(Topology::Remote, account);
    let step = nonce_after(step, ReplyView::BestBlock(best));
    let step = nonce_after(step, ReplyView::Header(Ok(Some(header))));
    let step = nonce_after(step, ReplyView::RemoteCall(Ok(answer)));
    nonce_after(step, ReplyView::ReadyTransactions(ready))
}

/// With state at hand, a resolution asks for the best block, then at that
/// block for the account's index and for the previous block, then for the
/// signers of the transactions that the header accounts for, then for the
/// pool's ready view; and it ends with the index in state, plus the probes
/// that count for the account, moved on past the ready view.
pub proof fn lemma_direct_resolution(
    account: AccountId,
    best: BlockHash,
    base: Index,
    extrinsic_count: u32,
    body: Option<Seq<Seq<u8>>>,
    probes: Seq<Option<Signer>>,
    ready: Seq<Seq<Seq<u8>>>,
)
    requires
        probes.len() == probed(body_of(body), extrinsic_count).len(),
        resolved(account@, base, probes, ready) <= Index::MAX,
    ensures
        ({
            let s0 = nonce_begin(Topology::Direct, account);
            let s1 = nonce_after(s0, ReplyView::BestBlock(best));
            let s2 = nonce_after(s1, ReplyView::AccountNonce(Ok(base)));
            let s3 = nonce_after(s2, ReplyView::PreviousBlock { extrinsic_count, body });
            let s4 = nonce_after(s3, ReplyView::Signers(probes));
            &&& asked(s0) == Some(RequestView::BestBlock)
            &&& asked(s1) == Some(RequestView::AccountNonce { at: best, account })
            &&& asked(s2) == Some(RequestView::PreviousBlock { at: best })
            &&& asked(s3) == Some(
                RequestView::Signers { at: best, transactions: probed(body_of(body), extrinsic_count) },
            )
            &&& asked(s4) == Some(RequestView::ReadyTransactions)
        }),
        direct_run(account, best, base, extrinsic_count, body, probes, ready) == StepView::<
            NonceQuery,
            Index,
        >::Done(Ok(resolved(account@, base, probes, ready) as Index)),
{
    lemma_lookahead_bounds(ready, account@, base + delayed_count(probes, account@), 0);
}

/// Delayed-execution additivity: with state at hand and an empty pool, a
/// resolution yields the index in state plus the number of probed
/// transactions of the previous block that the account signed.
pub proof fn lemma_delayed_additivity(
    account: AccountId,
    best: BlockHash,
    base: Index,
    extrinsic_count: u32,
    body: Option<Seq<Seq<u8>>>,
    probes: Seq<Option<Signer>>,
)
    requires
        probes.len() == probed(body_of(body), extrinsic_count).len(),
        base + delayed_count(probes, account@) <= Index::MAX,
    ensures
        direct_run(account, best, base, extrinsic_count, body, probes, Seq::empty()) == StepView::<
            NonceQuery,
            Index,
        >::Done(Ok((base + delayed_count(probes, account@)) as Index)),
{
    lemma_direct_resolution(account, best, base, extrinsic_count, body, probes, Seq::empty());
}

/// With state fetched from afar, a resolution asks for the best block, then
/// for its header, then for the account's index by a remote call at that
/// block, then for the pool's ready view; and it ends with the index that
/// the call returned, moved on past the ready view.
pub proof fn lemma_remote_resolution(
    account: AccountId,
    best: BlockHash,
    header: Seq<u8>,
    answer: Seq<u8>,
    ready: Seq<Seq<Seq<u8>>>,
)
    requires
        answer.len() >= 4,
        lookahead(ready, account@, index_of_bytes(answer) as int) <= Index::MAX,
    ensures
        ({
            let s0 = nonce_begin(Topology::Remote, account);
            let s1 = nonce_after(s0, ReplyView::BestBlock(best));
            let s2 = nonce_after(s1, ReplyView::Header(Ok(Some(header))));
            let s3 = nonce_after(s2, ReplyView::RemoteCall(Ok(answer)));
            &&& asked(s0) == Some(RequestView::BestBlock)
            &&& asked(s1) == Some(RequestView::Header { at: best })
            &&& asked(s2) == Some(
                RequestView::RemoteCall { block: best, header, method: nonce_method(), call_data: account@ },
            )
            &&& asked(s3) == Some(RequestView::ReadyTransactions)
        }),
        remote_run(account, best, header, answer, ready) == StepView::<NonceQuery, Index>::Done(
            Ok(lookahead(ready, account@, index_of_bytes(answer) as int) as Index),
        ),
{
}

/// Topology parity: where no probed transaction of the previous block
/// counts for the account, and the remote call returns the encoding of the
/// index that is in state, the two resolvers end alike, whatever the pool
/// holds: with that index moved on past the ready view.
pub proof fn lemma_topology_parity(
    account: AccountId,
    best: BlockHash,
    base: Index,
    extrinsic_count: u32,
    body: Option<Seq<Seq<u8>>>,
    probes: Seq<Option<Signer>>,
    header: Seq<u8>,
    ready: Seq<Seq<Seq<u8>>>,
)
    requires
        probes.len() == probed(body_of(body), extrinsic_count).len(),
        delayed_count(probes, account@) == 0,
        lookahead(ready, account@, base as int) <= Index::MAX,
    ensures
        direct_run(account, best, base, extrinsic_count, body, probes, ready) == remote_run(
            account,
            best,
            header,
            index_bytes(base),
            ready,
        ),
        remote_run(account, best, header, index_bytes(base), ready) == StepView::<
            NonceQuery,
            Index,
        >::Done(Ok(lookahead(ready, account@, base as int) as Index)),
{
    lemma_index_round_trip(base, Seq::empty());
    assert(index_bytes(base) + Seq::<u8>::empty() =~= index_bytes(base));
    lemma_direct_resolution(account, best, base, extrinsic_count, body, probes, ready);
    lemma_remote_resolution(account, best, header, index_bytes(base), ready);
}

/// Every answer that a resolution takes brings it one step nearer its end,
/// so that a resolution is over after five answers at most.
pub proof fn lemma_resolution_progresses(pending: NonceQuery, reply: ReplyView)
    ensures
        1 <= steps_left(pending) <= 5,
        nonce_next(pending, reply) matches Some(StepView::Ask(next, _)) ==> steps_left(next) + 1
            == steps_left(pending),
{
}

/// One consistent point: the first answer names the best block, and from
/// then on every query of the resolution that names a block names that one.
pub proof fn lemma_consistent_point(pending: NonceQuery, reply: ReplyView)
    ensures
        nonce_next(pending, reply) matches Some(StepView::Ask(next, request)) ==> {
            let point = match (pending, reply) {
                (NonceQuery::Best { .. }, ReplyView::BestBlock(best)) => Some(best),
                _ => point_of(pending),
            };
            &&& named(request) is Some ==> named(request) == point
            &&& point_of(next) is Some ==> point_of(next) == point
        },
{
}

/// Permission gate: a caller kept from unsafe methods is turned away with
/// the failure for that, and the host is asked nothing.
pub proof fn lemma_permission_gate(extrinsic: Seq<u8>, at: Option<BlockHash>)
    ensures
        dry_run_begin(Topology::Direct, DenyUnsafe::Yes, extrinsic, at) == StepView::<
            DryRunView,
            Seq<u8>,
        >::Done(Err(FailureView::Forbidden)),
        asked(dry_run_begin(Topology::Direct, DenyUnsafe::Yes, extrinsic, at)) is None,
{
}

/// Where a dry run stands once the host has named the best block, if it was
/// asked to, and has said what applying the transaction gave.
pub open spec fn dry_run_run(
    extrinsic: Seq<u8>,
    at: Option<BlockHash>,
    best: BlockHash,
    applied: AppliedView,
) -> StepView<DryRunView, Seq<u8>> {
    let step = dry_run_begin(Topology::Direct, DenyUnsafe::No, extrinsic, at);
    let step = match at {
        Some(_) => step,
        None => dry_run_after(step, ReplyView::BestBlock(best)),
    };
    dry_run_after(step, ReplyView::Applied(applied))
}

/// Dry-run round trip: a permitted dry run asks the host to apply the very
/// bytes it was given, at the block it was given or else at the best one,
/// and hands on the encoded outcome byte for byte; a transaction that does
/// not decode, and a runtime that fails, each end it in their category.
pub proof fn lemma_dry_run_round_trip(
    extrinsic: Seq<u8>,
    at: Option<BlockHash>,
    best: BlockHash,
    applied: AppliedView,
)
    ensures
        ({
            let begun = dry_run_begin(Topology::Direct, DenyUnsafe::No, extrinsic, at);
            let target = match at {
                Some(named) => named,
                None => best,
            };
            let applying = match at {
                Some(_) => begun,
                None => dry_run_after(begun, ReplyView::BestBlock(best)),
            };
            &&& at is None ==> asked(begun) == Some(RequestView::BestBlock)
            &&& asked(applying) == Some(RequestView::Apply { at: target, extrinsic })
        }),
        dry_run_run(extrinsic, at, best, applied) == StepView::<DryRunView, Seq<u8>>::Done(
            match applied {
                AppliedView::Outcome(bytes) => Ok(bytes),
                AppliedView::Malformed(text) => Err(
                    dry_run_failure(Error::DecodeError, CauseView::Reported(text)),
                ),
                AppliedView::Failed(text) => Err(
                    dry_run_failure(Error::RuntimeError, CauseView::Reported(text)),
                ),
            },
        ),
{
}

} // verus!
