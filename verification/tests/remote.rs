use parity_scale_codec::Encode;
use rpc_nonce::delayed::Signer;
use rpc_nonce::error::{Cause, Error, Failure};
use rpc_nonce::exchange::{Reply, Request, Step};
use rpc_nonce::nonce::NonceQuery;
use rpc_nonce::pool::ReadyTransaction;
use rpc_nonce::policy::DenyUnsafe;
use rpc_nonce::primitives::{AccountId, BlockHash, Index, Topology};
use rpc_nonce::system::{FullSystem, LightSystem, SystemApi};

fn alice() -> AccountId {
    let mut bytes = [0u8; 32];
    for (i, byte) in bytes.iter_mut().enumerate() {
        *byte = i as u8;
    }
    AccountId::new(bytes)
}

fn best() -> BlockHash {
    BlockHash { bytes: [9; 32] }
}

fn tagged(account: &AccountId, nonce: Index) -> ReadyTransaction {
    ReadyTransaction { provides: vec![(account.bytes, nonce).encode()] }
}

fn answer(step: Step<NonceQuery, Index>, reply: Reply) -> Step<NonceQuery, Index> {
    match step {
        Step::Ask(pending, _) => pending.resume(reply).expect("the reply answers the request"),
        Step::Done(_) => panic!("the resolution is over"),
    }
}

fn failure(category: Error, cause: Cause) -> Step<NonceQuery, Index> {
    Step::Done(Err(Failure::Server { category, message: "Unable to query nonce.".to_string(), cause }))
}

fn remote(answered: Vec<u8>, ready: Vec<ReadyTransaction>) -> Step<NonceQuery, Index> {
    let step = LightSystem::new().nonce(alice());
    let step = answer(step, Reply::BestBlock(best()));
    let step = answer(step, Reply::Header(Ok(Some(vec![0xAA, 0xBB]))));
    let step = answer(step, Reply::RemoteCall(Ok(answered)));
    match step {
        Step::Ask(..) => answer(step, Reply::ReadyTransactions(ready)),
        done => done,
    }
}

fn direct(base: Index, probes: Vec<Option<Signer>>, ready: Vec<ReadyTransaction>) -> Step<NonceQuery, Index> {
    let body: Vec<Vec<u8>> = probes.iter().map(|_| vec![0u8]).collect();
    let step = FullSystem::new(DenyUnsafe::Yes).nonce(alice());
    let step = answer(step, Reply::BestBlock(best()));
    let step = answer(step, Reply::AccountNonce(Ok(base)));
    let step = answer(step, Reply::PreviousBlock { extrinsic_count: body.len() as u32, body: Some(body) });
    let step = answer(step, Reply::Signers(probes));
    answer(step, Reply::ReadyTransactions(ready))
}

#[test]
fn a_remote_resolution_asks_in_order_and_at_one_block() {
    let step = LightSystem::new().nonce(alice());
    assert_eq!(
        step,
        Step::Ask(NonceQuery::Best { topology: Topology::Remote, account: alice() }, Request::BestBlock)
    );
    let step = answer(step, Reply::BestBlock(best()));
    assert_eq!(
        step,
        Step::Ask(NonceQuery::Header { account: alice(), at: best() }, Request::Header { at: best() })
    );
    let step = answer(step, Reply::Header(Ok(Some(vec![0xAA, 0xBB]))));
    assert_eq!(
        step,
        Step::Ask(
            NonceQuery::Call { account: alice() },
            Request::RemoteCall {
                block: best(),
                header: vec![0xAA, 0xBB],
                method: "AccountNonceApi_account_nonce".to_string(),
                call_data: (0u8..32).collect(),
            }
        )
    );
    let step = answer(step, Reply::RemoteCall(Ok(vec![7, 0, 0, 0])));
    assert_eq!(step, Step::Ask(NonceQuery::Pool { account: alice(), nonce: 7 }, Request::ReadyTransactions));
    let step = answer(step, Reply::ReadyTransactions(vec![tagged(&alice(), 7), tagged(&alice(), 8)]));
    assert_eq!(step, Step::Done(Ok(9)));
}

#[test]
fn the_call_data_is_the_encoded_account() {
    let pending = NonceQuery::Header { account: alice(), at: best() };
    match pending.resume(Reply::Header(Ok(Some(vec![])))) {
        Ok(Step::Ask(_, Request::RemoteCall { call_data, .. })) => {
            assert_eq!(call_data, alice().bytes.encode());
            assert_eq!(call_data.len(), 32);
        }
        other => panic!("no remote call: {:?}", other),
    }
}

#[test]
fn the_answer_is_read_as_a_little_endian_index() {
    assert_eq!(remote(vec![0, 0, 0, 0], vec![]), Step::Done(Ok(0)));
    assert_eq!(remote(vec![1, 2, 3, 4], vec![]), Step::Done(Ok(0x0403_0201)));
    assert_eq!(remote(vec![0xFF; 4], vec![]), Step::Done(Ok(Index::MAX)));
    assert_eq!(remote(0x1234_5678u32.encode(), vec![]), Step::Done(Ok(0x1234_5678)));
}

#[test]
fn bytes_after_the_index_are_left_unread() {
    assert_eq!(remote(vec![5, 0, 0, 0, 0xEE, 0xEE], vec![]), Step::Done(Ok(5)));
}

#[test]
fn an_answer_too_short_for_an_index_is_a_decode_failure() {
    for len in 0..4 {
        assert_eq!(remote(vec![1; len], vec![]), failure(Error::DecodeError, Cause::Undecodable));
    }
}

#[test]
fn an_unknown_block_ends_the_resolution() {
    let step = LightSystem::new().nonce(alice());
    let step = answer(step, Reply::BestBlock(best()));
    assert_eq!(
        answer(step, Reply::Header(Ok(None))),
        failure(Error::RuntimeError, Cause::UnknownBlock(best()))
    );
}

#[test]
fn a_failed_fetch_of_the_header_ends_the_resolution() {
    let step = LightSystem::new().nonce(alice());
    let step = answer(step, Reply::BestBlock(best()));
    assert_eq!(
        answer(step, Reply::Header(Err("Backend(\"lost\")".to_string()))),
        failure(Error::RuntimeError, Cause::Reported("Backend(\"lost\")".to_string()))
    );
}

#[test]
fn a_failed_remote_call_ends_the_resolution() {
    let step = LightSystem::new().nonce(alice());
    let step = answer(step, Reply::BestBlock(best()));
    let step = answer(step, Reply::Header(Ok(Some(vec![]))));
    assert_eq!(
        answer(step, Reply::RemoteCall(Err("RemoteFetchFailed".to_string()))),
        failure(Error::RuntimeError, Cause::Reported("RemoteFetchFailed".to_string()))
    );
}

#[test]
fn a_remote_resolution_never_probes_the_previous_block() {
    let mut step = LightSystem::new().nonce(alice());
    let replies = vec![
        Reply::BestBlock(best()),
        Reply::Header(Ok(Some(vec![1]))),
        Reply::RemoteCall(Ok(vec![2, 0, 0, 0])),
        Reply::ReadyTransactions(vec![]),
    ];
    for reply in replies {
        match &step {
            Step::Ask(_, request) => {
                assert!(!matches!(request, Request::PreviousBlock { .. } | Request::Signers { .. }));
                assert!(!matches!(request, Request::AccountNonce { .. } | Request::Apply { .. }));
            }
            Step::Done(_) => panic!("the resolution ended early"),
        }
        step = answer(step, reply);
    }
    assert_eq!(step, Step::Done(Ok(2)));
}

#[test]
fn a_remote_resolution_refuses_what_only_a_direct_one_asks_for() {
    let pending = NonceQuery::Header { account: alice(), at: best() };
    assert_eq!(pending.resume(Reply::AccountNonce(Ok(1))), Err(pending));
    assert_eq!(pending.resume(Reply::Signers(vec![])), Err(pending));
    let pending = NonceQuery::Call { account: alice() };
    assert_eq!(pending.resume(Reply::Header(Ok(None))), Err(pending));
    assert_eq!(pending.resume(Reply::PreviousBlock { extrinsic_count: 0, body: None }), Err(pending));
}

#[test]
fn an_index_out_of_range_is_refused_by_a_remote_resolution() {
    let pending = NonceQuery::Call { account: alice() };
    let step = pending.resume(Reply::RemoteCall(Ok(vec![0xFF; 4]))).expect("an index");
    let ready = vec![tagged(&alice(), Index::MAX)];
    match step {
        Step::Ask(pool, Request::ReadyTransactions) => {
            assert_eq!(pool.resume(Reply::ReadyTransactions(ready)), Err(pool));
        }
        other => panic!("no request for the pool: {:?}", other),
    }
}

#[test]
fn both_resolvers_agree_where_nothing_is_delayed() {
    for base in [0, 1, 41, Index::MAX] {
        assert_eq!(remote(base.encode(), vec![]), direct(base, vec![], vec![]));
        assert_eq!(direct(base, vec![], vec![]), Step::Done(Ok(base)));
    }
    let other = Some(Signer { who: [0xCC; 32], nonce: 1 });
    let ready = vec![tagged(&alice(), 41), tagged(&alice(), 42), tagged(&alice(), 44)];
    assert_eq!(
        remote(41u32.encode(), ready.clone()),
        direct(41, vec![other, None, None], ready)
    );
}

fn first_request<S: SystemApi>(system: &S) -> Request {
    match system.nonce(alice()) {
        Step::Ask(_, request) => request,
        Step::Done(_) => panic!("nothing is asked"),
    }
}

#[test]
fn every_resolver_asks_for_the_best_block_first() {
    assert_eq!(first_request(&FullSystem::new(DenyUnsafe::Yes)), Request::BestBlock);
    assert_eq!(first_request(&FullSystem::new(DenyUnsafe::No)), Request::BestBlock);
    assert_eq!(first_request(&LightSystem::new()), Request::BestBlock);
}
