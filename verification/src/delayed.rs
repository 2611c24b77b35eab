//! The transactions of the previous block whose effects the queried state
//! does not show yet.
//!
//! Each of them is probed for its signer against the state of that block.
//! A probe runs in a scope of its own and is settled by a rollback, so that
//! nothing it did to state outlives it.

use crate::primitives::{same_bytes, views, AccountId};
use crate::scale::decode_account;
use vstd::prelude::*;

verus! {

/// Who signed a transaction: the signer's 32 bytes, and the index it used.
#[derive(Clone, Copy, Debug, PartialEq, Eq)]
pub struct Signer {
    pub who: [u8; 32],
    pub nonce: u32,
}

/// What the runtime said when it was asked for a transaction's signer.
#[derive(Clone, Copy, Debug, PartialEq, Eq)]
pub enum Probe {
    /// The transaction is signed.
    Signed(Signer),
    /// The transaction carries no signer.
    Unsigned,
    /// The runtime could not say: the transaction is dead or malformed.
    Failed,
}

/// How a scope of speculative execution ends: what it wrote to state is
/// kept or discarded, and a value leaves the scope either way.
#[derive(Clone, Copy, Debug, PartialEq, Eq)]
pub enum TransactionOutcome<R> {
    /// Keep what the scope wrote.
    Commit(R),
    /// Discard what the scope wrote.
    Rollback(R),
}

/// The signer that a probe found. A failed probe found none.
pub open spec fn signer_of(probe: Probe) -> Option<Signer> {
    match probe {
        Probe::Signed(signer) => Some(signer),
        Probe::Unsigned => None,
        Probe::Failed => None,
    }
}

impl Probe {
    /// Ends the scope of a probe. Whatever the probe gave, and also where it
    /// failed, the scope is rolled back; the signer leaves it, if there is
    /// one. A failure is not handed on.
    pub fn settle(self) -> (outcome: TransactionOutcome<Option<Signer>>)
        ensures
            outcome == TransactionOutcome::Rollback(signer_of(self)),
    {
        match self {
            Probe::Signed(signer) => TransactionOutcome::Rollback(Some(signer)),
            Probe::Unsigned => TransactionOutcome::Rollback(None),
            Probe::Failed => TransactionOutcome::Rollback(None),
        }
    }
}

/// Whether a settled probe counts for `account`: it gave a signer, and the
/// signer decodes to exactly that account.
pub open spec fn signed_by(probe: Option<Signer>, account: Seq<u8>) -> bool {
    probe matches Some(signer) && signer.who@ == account
}

/// `signed_by` as a predicate on probes.
pub open spec fn by_signer(account: Seq<u8>) -> spec_fn(Option<Signer>) -> bool {
    |probe: Option<Signer>| signed_by(probe, account)
}

/// How many of the settled probes count for `account`.
pub open spec fn delayed_count(probes: Seq<Option<Signer>>, account: Seq<u8>) -> nat {
    probes.filter(by_signer(account)).len()
}

/// The transactions of a block's body; a block without a body has none.
pub open spec fn body_of(body: Option<Seq<Seq<u8>>>) -> Seq<Seq<u8>> {
    match body {
        Some(transactions) => transactions,
        None => Seq::empty(),
    }
}

/// The transactions of a block that are probed: the first `extrinsic_count`
/// of its body, or the whole body where it holds fewer.
pub open spec fn probed(body: Seq<Seq<u8>>, extrinsic_count: u32) -> Seq<Seq<u8>> {
    if extrinsic_count < body.len() {
        body.take(extrinsic_count as int)
    } else {
        body
    }
}

/// No probe counts in an empty sequence, and a probe more adds one to the
/// count where it counts, and nothing else.
pub proof fn lemma_delayed_count_push(
    probes: Seq<Option<Signer>>,
    probe: Option<Signer>,
    account: Seq<u8>,
)
    ensures
        delayed_count(Seq::empty(), account) == 0,
        delayed_count(probes.push(probe), account) == delayed_count(probes, account) + (if signed_by(
            probe,
            account,
        ) {
            1nat
        } else {
            0nat
        }),
{
    reveal(Seq::filter);
    assert(probes.push(probe).drop_last() =~= probes);
}

/// No more probes count than there are.
pub proof fn lemma_delayed_count_bound(probes: Seq<Option<Signer>>, account: Seq<u8>)
    ensures
        delayed_count(probes, account) <= probes.len(),
{
    probes.lemma_filter_len(by_signer(account));
}

/// The body of the previous block, cut down to the transactions that its
/// header accounts for.
pub fn probe_window(body: Vec<Vec<u8>>, extrinsic_count: u32) -> (window: Vec<Vec<u8>>)
    ensures
        views(window@) == probed(views(body@), extrinsic_count),
{
    let mut window = body;
    let ghost whole = window@;
    if (extrinsic_count as usize) < window.len() {
        window.truncate(extrinsic_count as usize);
        assert(views(window@) =~= views(whole).take(extrinsic_count as int));
    }
    window
}

/// Whether one settled probe counts for `account`.
fn counts_for(probe: &Option<Signer>, account: &AccountId) -> (counts: bool)
    ensures
        counts == signed_by(*probe, account@),
{
    match probe {
        Some(signer) => match decode_account(&signer.who) {
            Some(bytes) => same_bytes(&bytes, &account.bytes),
            None => false,
        },
        None => false,
    }
}

/// Counts the settled probes that count for `account`.
fn count_signed(probes: &Vec<Option<Signer>>, account: &AccountId) -> (count: usize)
    ensures
        count == delayed_count(probes@, account@),
{
    let mut count: usize = 0;
    let mut i: usize = 0;
    proof {
        lemma_delayed_count_push(Seq::empty(), None, account@);
        assert(probes@.take(0) =~= Seq::empty());
    }
    while i < probes.len()
        invariant
            i <= probes.len(),
            count <= i,
            count == delayed_count(probes@.take(i as int), account@),
        decreases probes.len() - i,
    {
        proof {
            assert(probes@.take(i + 1) =~= probes@.take(i as int).push(probes@[i as int]));
            lemma_delayed_count_push(probes@.take(i as int), probes@[i as int], account@);
        }
        if counts_for(&probes[i], account) {
            count += 1;
        }
        i += 1;
    }
    assert(probes@.take(i as int) =~= probes@);
    count
}

/// The number of transactions of the previous block that `account` signed,
/// given the settled probe of each of them.
pub fn number_of_delayed_txs(probes: &Vec<Option<Signer>>, account: &AccountId) -> (count: u32)
    requires
        delayed_count(probes@, account@) <= u32::MAX,
    ensures
        count == delayed_count(probes@, account@),
{
    count_signed(probes, account) as u32
}

} // verus!
