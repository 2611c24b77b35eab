//! The next valid transaction index of an account, and the dry run of a
//! transaction, decided here and performed by a host.
//!
//! Three sources say where an account stands: the ledger's state, the
//! transactions of the previous block whose effects that state does not show
//! yet, and the transactions that wait in the pool. A resolution reconciles
//! them into one index that neither collides with an accepted transaction
//! nor leaves a gap ahead of one.
//!
//! The library queries nothing itself. A method of [`system::SystemApi`]
//! starts a request and returns an [`exchange::Step`]: the request is done,
//! or it asks the host for one thing. The host does it and hands the answer
//! to `resume`, which gives the next step. What the steps are, and where they
//! end, is stated in [`nonce`] and [`dry_run`] and proved of every run in
//! [`laws`].

pub mod delayed;
pub mod dry_run;
pub mod error;
pub mod exchange;
pub mod laws;
pub mod nonce;
pub mod policy;
pub mod pool;
pub mod primitives;
pub mod scale;
pub mod system;
