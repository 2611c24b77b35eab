use parity_scale_codec::Encode;
use rpc_nonce::delayed::Signer;
use rpc_nonce::error::{Cause, Error, Failure};
use rpc_nonce::exchange::{Applied, Reply, Request, Step};
use rpc_nonce::nonce::NonceQuery;
use rpc_nonce::pool::ReadyTransaction;
use rpc_nonce::policy::DenyUnsafe;
use rpc_nonce::primitives::{AccountId, BlockHash, Index, Topology};
use rpc_nonce::system::{FullSystem, SystemApi};

fn alice() -> AccountId {
    AccountId::new([1; 32])
}

fn best() -> BlockHash {
    BlockHash { bytes: [9; 32] }
}

fn tagged(account: &AccountId, nonce: Index) -> ReadyTransaction {
    ReadyTransaction { provides: vec![(account.bytes, nonce).encode()] }
}

fn signed(byte: u8) -> Option<Signer> {
    Some(Signer { who: [byte; 32], nonce: 0 })
}

fn answer(step: Step<NonceQuery, Index>, reply: Reply) -> Step<NonceQuery, Index> {
    match step {
        Step::Ask(pending, _) => pending.resume(reply).expect("the reply answers the request"),
        Step::Done(_) => panic!("the resolution is over"),
    }
}

fn resolve(base: Index, probes: Vec<Option<Signer>>, ready: Vec<ReadyTransaction>) -> Result<Index, Failure> {
    let body: Vec<Vec<u8>> = probes.iter().map(|_| vec![0u8]).collect();
    let step = FullSystem::new(DenyUnsafe::Yes).nonce(alice());
    let step = answer(step, Reply::BestBlock(best()));
    let step = answer(step, Reply::AccountNonce(Ok(base)));
    let step = answer(step, Reply::PreviousBlock { extrinsic_count: body.len() as u32, body: Some(body) });
    let step = answer(step, Reply::Signers(probes));
    match answer(step, Reply::ReadyTransactions(ready)) {
        Step::Done(result) => result,
        Step::Ask(..) => panic!("the resolution asks for more"),
    }
}

#[test]
fn delayed_transactions_then_a_pool_transaction() {
    assert_eq!(resolve(5, vec![signed(1), signed(1)], vec![]), Ok(7));
    assert_eq!(resolve(5, vec![signed(1), signed(1)], vec![tagged(&alice(), 7)]), Ok(8));
}

#[test]
fn with_nothing_pending_the_index_is_that_of_state() {
    assert_eq!(resolve(0, vec![], vec![]), Ok(0));
    assert_eq!(resolve(12, vec![None, signed(2), None], vec![]), Ok(12));
}

#[test]
fn delayed_transactions_add_to_the_index() {
    for k in 0..4usize {
        let mut probes = vec![signed(2), None];
        probes.extend(std::iter::repeat(signed(1)).take(k));
        assert_eq!(resolve(100, probes, vec![]), Ok(100 + k as Index));
    }
}

#[test]
fn the_pool_is_entered_at_the_index_after_the_delayed_transactions() {
    let ready = vec![tagged(&alice(), 5), tagged(&alice(), 6), tagged(&alice(), 7)];
    assert_eq!(resolve(5, vec![], ready.clone()), Ok(8));
    assert_eq!(resolve(5, vec![signed(1)], ready.clone()), Ok(8));
    assert_eq!(resolve(5, vec![signed(1), signed(1), signed(1)], ready.clone()), Ok(8));
    assert_eq!(resolve(5, vec![signed(1); 4], ready), Ok(9));
}

#[test]
fn a_resolution_asks_in_order_and_at_one_block() {
    let step = FullSystem::new(DenyUnsafe::No).nonce(alice());
    assert_eq!(
        step,
        Step::Ask(NonceQuery::Best { topology: Topology::Direct, account: alice() }, Request::BestBlock)
    );
    let step = answer(step, Reply::BestBlock(best()));
    assert_eq!(
        step,
        Step::Ask(
            NonceQuery::State { account: alice(), at: best() },
            Request::AccountNonce { at: best(), account: alice() }
        )
    );
    let step = answer(step, Reply::AccountNonce(Ok(3)));
    assert_eq!(
        step,
        Step::Ask(
            NonceQuery::Block { account: alice(), at: best(), nonce: 3 },
            Request::PreviousBlock { at: best() }
        )
    );
    let body = vec![vec![10u8], vec![11u8], vec![12u8]];
    let step = answer(step, Reply::PreviousBlock { extrinsic_count: 2, body: Some(body) });
    assert_eq!(
        step,
        Step::Ask(
            NonceQuery::Signers { account: alice(), nonce: 3, asked: 2 },
            Request::Signers { at: best(), transactions: vec![vec![10u8], vec![11u8]] }
        )
    );
    let step = answer(step, Reply::Signers(vec![signed(1), signed(2)]));
    assert_eq!(step, Step::Ask(NonceQuery::Pool { account: alice(), nonce: 4 }, Request::ReadyTransactions));
    let step = answer(step, Reply::ReadyTransactions(vec![tagged(&alice(), 4)]));
    assert_eq!(step, Step::Done(Ok(5)));
}

#[test]
fn a_block_without_a_body_has_nothing_to_probe() {
    let pending = NonceQuery::Block { account: alice(), at: best(), nonce: 3 };
    let step = pending.resume(Reply::PreviousBlock { extrinsic_count: 4, body: None });
    assert_eq!(
        step,
        Ok(Step::Ask(
            NonceQuery::Signers { account: alice(), nonce: 3, asked: 0 },
            Request::Signers { at: best(), transactions: vec![] }
        ))
    );
}

#[test]
fn a_header_that_counts_nothing_has_nothing_to_probe() {
    let pending = NonceQuery::Block { account: alice(), at: best(), nonce: 3 };
    let step = pending.resume(Reply::PreviousBlock { extrinsic_count: 0, body: Some(vec![vec![1u8]]) });
    assert_eq!(
        step,
        Ok(Step::Ask(
            NonceQuery::Signers { account: alice(), nonce: 3, asked: 0 },
            Request::Signers { at: best(), transactions: vec![] }
        ))
    );
}

#[test]
fn a_failed_state_query_ends_the_resolution() {
    let step = FullSystem::new(DenyUnsafe::Yes).nonce(alice());
    let step = answer(step, Reply::BestBlock(best()));
    let step = answer(step, Reply::AccountNonce(Err("Api(\"down\")".to_string())));
    assert_eq!(
        step,
        Step::Done(Err(Failure::Server {
            category: Error::RuntimeError,
            message: "Unable to query nonce.".to_string(),
            cause: Cause::Reported("Api(\"down\")".to_string()),
        }))
    );
}

#[test]
fn a_reply_to_something_else_is_refused() {
    let waiting = [
        NonceQuery::Best { topology: Topology::Direct, account: alice() },
        NonceQuery::State { account: alice(), at: best() },
        NonceQuery::Block { account: alice(), at: best(), nonce: 1 },
        NonceQuery::Signers { account: alice(), nonce: 1, asked: 0 },
        NonceQuery::Pool { account: alice(), nonce: 1 },
    ];
    for pending in waiting {
        assert_eq!(pending.resume(Reply::Applied(Applied::Outcome(vec![]))), Err(pending));
        assert_eq!(pending.resume(Reply::RemoteCall(Ok(vec![1, 0, 0, 0]))), Err(pending));
        assert_eq!(pending.resume(Reply::Header(Ok(None))), Err(pending));
    }
    let state = NonceQuery::State { account: alice(), at: best() };
    assert_eq!(state.resume(Reply::BestBlock(best())), Err(state));
    assert_eq!(state.resume(Reply::ReadyTransactions(vec![])), Err(state));
    let pool = NonceQuery::Pool { account: alice(), nonce: 1 };
    assert_eq!(pool.resume(Reply::AccountNonce(Ok(1))), Err(pool));
    assert_eq!(pool.resume(Reply::Signers(vec![])), Err(pool));
}

#[test]
fn probes_for_other_than_the_transactions_asked_are_refused() {
    let pending = NonceQuery::Signers { account: alice(), nonce: 1, asked: 2 };
    assert_eq!(pending.resume(Reply::Signers(vec![signed(1)])), Err(pending));
    assert_eq!(pending.resume(Reply::Signers(vec![signed(1); 3])), Err(pending));
    assert_eq!(
        pending.resume(Reply::Signers(vec![signed(1); 2])),
        Ok(Step::Ask(NonceQuery::Pool { account: alice(), nonce: 3 }, Request::ReadyTransactions))
    );
}

#[test]
fn an_index_out_of_range_is_refused() {
    let pending = NonceQuery::Signers { account: alice(), nonce: Index::MAX, asked: 1 };
    assert_eq!(pending.resume(Reply::Signers(vec![signed(1)])), Err(pending));
    assert_eq!(
        pending.resume(Reply::Signers(vec![signed(2)])),
        Ok(Step::Ask(NonceQuery::Pool { account: alice(), nonce: Index::MAX }, Request::ReadyTransactions))
    );
    let pending = NonceQuery::Signers { account: alice(), nonce: Index::MAX - 1, asked: 1 };
    assert_eq!(
        pending.resume(Reply::Signers(vec![signed(1)])),
        Ok(Step::Ask(NonceQuery::Pool { account: alice(), nonce: Index::MAX }, Request::ReadyTransactions))
    );
    let pending = NonceQuery::Pool { account: alice(), nonce: Index::MAX };
    assert_eq!(pending.resume(Reply::ReadyTransactions(vec![tagged(&alice(), Index::MAX)])), Err(pending));
    assert_eq!(pending.resume(Reply::ReadyTransactions(vec![])), Ok(Step::Done(Ok(Index::MAX))));
}

#[test]
fn only_the_transactions_that_the_header_accounts_for_are_counted() {
    let body = vec![vec![1u8], vec![2u8], vec![3u8], vec![4u8]];
    let pending = NonceQuery::Block { account: alice(), at: best(), nonce: 10 };
    let step = pending
        .resume(Reply::PreviousBlock { extrinsic_count: 3, body: Some(body) })
        .expect("a previous block");
    let (pending, asked) = match step {
        Step::Ask(pending, Request::Signers { transactions, .. }) => (pending, transactions.len()),
        other => panic!("no probes are asked for: {:?}", other),
    };
    assert_eq!(asked, 3);
    assert_eq!(pending.resume(Reply::Signers(vec![signed(1); 4])), Err(pending));
    assert_eq!(
        pending.resume(Reply::Signers(vec![signed(1); 3])),
        Ok(Step::Ask(NonceQuery::Pool { account: alice(), nonce: 13 }, Request::ReadyTransactions))
    );
}

#[test]
fn a_resolution_is_over_after_five_answers() {
    let mut step = FullSystem::new(DenyUnsafe::No).nonce(alice());
    let replies = vec![
        Reply::BestBlock(best()),
        Reply::AccountNonce(Ok(1)),
        Reply::PreviousBlock { extrinsic_count: 0, body: None },
        Reply::Signers(vec![]),
        Reply::ReadyTransactions(vec![]),
    ];
    for reply in replies {
        assert!(matches!(step, Step::Ask(..)));
        step = answer(step, reply);
    }
    assert_eq!(step, Step::Done(Ok(1)));
}
