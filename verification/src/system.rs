//! The two resolvers: one with the ledger's state at hand, one that fetches
//! it from afar.

use crate::dry_run::{dry_run_begin, DryRun};
use crate::exchange::Step;
use crate::nonce::{nonce_begin, NonceQuery};
use crate::policy::DenyUnsafe;
use crate::primitives::{AccountId, BlockHash, Index, Topology};
use vstd::prelude::*;

verus! {

/// The methods that a resolver offers. Each starts a request and says what
/// it asks of the host first; the request itself is moved on by `resume`.
pub trait SystemApi {
    /// How the resolver reaches the ledger's state.
    spec fn topology(&self) -> Topology;

    /// Whether the resolver keeps its callers from unsafe methods.
    spec fn deny_unsafe(&self) -> DenyUnsafe;

    /// Starts the resolution of the next valid index of `account`: the index
    /// in state, moved on by the transactions that wait for execution.
    fn nonce(&self, account: AccountId) -> (step: Step<NonceQuery, Index>)
        ensures
            step@ == nonce_begin(self.topology(), account),
    ;

    /// Starts the dry run of `extrinsic` at `at`, or at the best block where
    /// `at` names none. The result is the encoded outcome of applying it.
    fn dry_run(&self, extrinsic: Vec<u8>, at: Option<BlockHash>) -> (step: Step<DryRun, Vec<u8>>)
        ensures
            step@ == dry_run_begin(self.topology(), self.deny_unsafe(), extrinsic@, at),
    ;
}

/// The resolver of a full client: state and blocks are at hand.
#[derive(Clone, Copy, Debug)]
pub struct FullSystem {
    deny_unsafe: DenyUnsafe,
}

impl FullSystem {
    /// A resolver that keeps its callers from unsafe methods as
    /// `deny_unsafe` says.
    pub fn new(deny_unsafe: DenyUnsafe) -> (system: FullSystem)
        ensures
            system.topology() == Topology::Direct,
            system.deny_unsafe() == deny_unsafe,
    {
        FullSystem { deny_unsafe }
    }
}

impl SystemApi for FullSystem {
    open spec fn topology(&self) -> Topology {
        Topology::Direct
    }

    closed spec fn deny_unsafe(&self) -> DenyUnsafe {
        self.deny_unsafe
    }

    fn nonce(&self, account: AccountId) -> (step: Step<NonceQuery, Index>) {
        NonceQuery::begin(Topology::Direct, account)
    }

    fn dry_run(&self, extrinsic: Vec<u8>, at: Option<BlockHash>) -> (step: Step<DryRun, Vec<u8>>) {
        DryRun::begin(Topology::Direct, self.deny_unsafe, extrinsic, at)
    }
}

/// The resolver of a light client: state is fetched from afar, and there is
/// no dry run.
#[derive(Clone, Copy, Debug)]
pub struct LightSystem {}

impl LightSystem {
    /// A resolver for a light client.
    pub fn new() -> (system: LightSystem)
        ensures
            system.topology() == Topology::Remote,
    {
        LightSystem {  }
    }
}

impl SystemApi for LightSystem {
    open spec fn topology(&self) -> Topology {
        Topology::Remote
    }

    open spec fn deny_unsafe(&self) -> DenyUnsafe {
        DenyUnsafe::No
    }

    fn nonce(&self, account: AccountId) -> (step: Step<NonceQuery, Index>) {
        NonceQuery::begin(Topology::Remote, account)
    }

    fn dry_run(&self, extrinsic: Vec<u8>, at: Option<BlockHash>) -> (step: Step<DryRun, Vec<u8>>) {
        DryRun::begin(Topology::Remote, DenyUnsafe::No, extrinsic, at)
    }
}

} // verus!
