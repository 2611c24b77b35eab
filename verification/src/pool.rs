//! The pool's ready view and the index that lies beyond it.

use crate::primitives::{views, AccountId, Index};
use crate::scale::{encode_tag, tag_bytes};
use vstd::prelude::*;

verus! {

/// A transaction of the pool's ready view, as far as a resolution reads it:
/// the tags that it provides, in their order.
#[derive(Clone, Debug, PartialEq, Eq)]
pub struct ReadyTransaction {
    pub provides: Vec<Vec<u8>>,
}

impl View for ReadyTransaction {
    type V = Seq<Seq<u8>>;

    open spec fn view(&self) -> Seq<Seq<u8>> {
        views(self.provides@)
    }
}

/// The tags of each transaction of a ready view, in the view's order.
pub open spec fn ready_view(ready: Seq<ReadyTransaction>) -> Seq<Seq<Seq<u8>>> {
    ready.map_values(|tx: ReadyTransaction| tx@)
}

/// Whether the first tag of a transaction is, byte for byte, the tag of
/// `account` with index `nonce`. No tag stands for an index beyond `Index`.
pub open spec fn provides_tag(tx: Seq<Seq<u8>>, account: Seq<u8>, nonce: int) -> bool {
    &&& 0 <= nonce <= Index::MAX
    &&& tx.len() > 0
    &&& tx[0] == tag_bytes(account, nonce as Index)
}

/// The index reached by one forward pass over a ready view that starts at
/// `nonce`: after the view's last transaction it is the index reached before
/// it, and one more if that transaction provides the tag of that index.
pub open spec fn lookahead(ready: Seq<Seq<Seq<u8>>>, account: Seq<u8>, nonce: int) -> int
    decreases ready.len(),
{
    if ready.len() == 0 {
        nonce
    } else {
        let reached = lookahead(ready.drop_last(), account, nonce);
        if provides_tag(ready.last(), account, reached) {
            reached + 1
        } else {
            reached
        }
    }
}

/// A longer view reaches at least as far, and no view reaches further than
/// one index per transaction.
pub proof fn lemma_lookahead_bounds(
    ready: Seq<Seq<Seq<u8>>>,
    account: Seq<u8>,
    nonce: int,
    upto: int,
)
    requires
        0 <= upto <= ready.len(),
    ensures
        nonce <= lookahead(ready.take(upto), account, nonce) <= lookahead(ready, account, nonce),
        lookahead(ready, account, nonce) <= nonce + ready.len(),
    decreases ready.len(),
{
    if ready.len() == 0 {
        assert(ready.take(upto) =~= ready);
    } else if upto == ready.len() {
        assert(ready.take(upto) =~= ready);
        lemma_lookahead_bounds(ready.drop_last(), account, nonce, 0);
    } else {
        assert(ready.drop_last().take(upto) =~= ready.take(upto));
        lemma_lookahead_bounds(ready.drop_last(), account, nonce, upto);
    }
}

/// Whether a transaction's first tag is `tag`.
fn first_tag_is(tx: &ReadyTransaction, tag: &Vec<u8>) -> (is: bool)
    ensures
        is == (tx@.len() > 0 && tx@[0] == tag@),
{
    if tx.provides.len() == 0 {
        return false;
    }
    let first = &tx.provides[0];
    assert(tx@[0] == first@);
    if first.len() != tag.len() {
        return false;
    }
    let mut i: usize = 0;
    while i < first.len()
        invariant
            i <= first.len(),
            first.len() == tag.len(),
            tx@.len() > 0,
            tx@[0] == first@,
            forall|j: int| 0 <= j < i ==> first@[j] == tag@[j],
        decreases first.len() - i,
    {
        if first[i] != tag[i] {
            assert(first@[i as int] != tag@[i as int]);
            return false;
        }
        i += 1;
    }
    assert(first@ =~= tag@);
    true
}

/// Adjusts an account's index from state so that a transaction with the
/// result is placed after all ready transactions of the pool; gives nothing
/// where that index lies beyond the range of `Index`.
pub fn checked_adjust_nonce(
    ready: &Vec<ReadyTransaction>,
    account: &AccountId,
    nonce: Index,
) -> (adjusted: Option<Index>)
    ensures
        adjusted is Some <==> lookahead(ready_view(ready@), account@, nonce as int) <= Index::MAX,
        adjusted matches Some(index) ==> index == lookahead(ready_view(ready@), account@, nonce as int),
{
    let ghost view = ready_view(ready@);
    let mut current: Index = nonce;
    let mut tag = encode_tag(account, current);
    let mut i: usize = 0;
    while i < ready.len()
        invariant
            i <= ready.len(),
            view == ready_view(ready@),
            current == lookahead(view.take(i as int), account@, nonce as int),
            tag@ == tag_bytes(account@, current),
        decreases ready.len() - i,
    {
        let matched = first_tag_is(&ready[i], &tag);
        proof {
            assert(view.take(i + 1).drop_last() =~= view.take(i as int));
            assert(view.take(i + 1).last() == ready@[i as int]@);
        }
        if matched {
            if current == Index::MAX {
                proof {
                    lemma_lookahead_bounds(view, account@, nonce as int, i + 1);
                }
                return None;
            }
            current += 1;
            tag = encode_tag(account, current);
        }
        i += 1;
    }
    assert(view.take(i as int) =~= view);
    Some(current)
}

/// Adjusts an account's index from state so that a transaction with the
/// result is placed after all ready transactions of the pool.
pub fn adjust_nonce(ready: &Vec<ReadyTransaction>, account: &AccountId, nonce: Index) -> (adjusted:
    Index)
    requires
        lookahead(ready_view(ready@), account@, nonce as int) <= Index::MAX,
    ensures
        adjusted == lookahead(ready_view(ready@), account@, nonce as int),
{
    checked_adjust_nonce(ready, account, nonce).unwrap()
}

} // verus!
