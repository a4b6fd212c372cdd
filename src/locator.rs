use vstd::prelude::*;

use crate::types::{Block, OutputDecoding, ResultOfProcessMessage, Transaction};

verus! {

/// Whether transaction `i` of `block` was produced by message `id`.
pub open spec fn produced_by(block: &Block, i: int, id: Seq<u8>) -> bool {
    block.transactions@[i].in_msg@ == id
}

/// Whether any transaction of `block` was produced by message `id`.
pub open spec fn block_has_message(block: &Block, id: Seq<u8>) -> bool {
    exists|i: int| 0 <= i < block.transactions@.len() && produced_by(block, i, id)
}

/// Compares two identifiers byte by byte.
pub fn ids_equal(a: &Vec<u8>, b: &Vec<u8>) -> (r: bool)
    ensures
        r == (a@ == b@),
{
    if a.len() != b.len() {
        return false;
    }
    let mut i: usize = 0;
    while i < a.len()
        invariant
            a@.len() == b@.len(),
            i <= a@.len(),
            forall|j: int| 0 <= j < i ==> a@[j] == b@[j],
        decreases a@.len() - i,
    {
        if a[i] != b[i] {
            return false;
        }
        i = i + 1;
    }
    assert(a@ =~= b@);
    true
}

/// Scans the transactions of `block` for the one produced by message `id`.
/// Returns the index of the first such transaction, or `None` when the block
/// holds none.
pub fn find_transaction(block: &Block, id: &Vec<u8>) -> (r: Option<usize>)
    ensures
        r is None <==> !block_has_message(block, id@),
        r matches Some(i) ==> {
            &&& i < block.transactions@.len()
            &&& produced_by(block, i as int, id@)
            &&& forall|j: int| 0 <= j < i ==> !produced_by(block, j, id@)
        },
{
    let mut i: usize = 0;
    while i < block.transactions.len()
        invariant
            i <= block.transactions@.len(),
            forall|j: int| 0 <= j < i ==> !produced_by(block, j, id@),
        decreases block.transactions@.len() - i,
    {
        if ids_equal(&block.transactions[i].in_msg, id) {
            assert(produced_by(block, i as int, id@));
            return Some(i);
        }
        i = i + 1;
    }
    None
}

/// Takes transaction `i` out of `block`.
pub fn take_transaction(block: Block, i: usize) -> (r: Transaction)
    requires
        i < block.transactions@.len(),
    ensures
        r == block.transactions@[i as int],
{
    let mut txs = block.transactions;
    txs.swap_remove(i)
}

/// Attaches to a found transaction the outcome of decoding each of its
/// output messages. A failed decoding stays with its own output: the
/// transaction is returned all the same and the other outputs keep their
/// values.
pub fn attach_outputs(transaction: Transaction, decoded: Vec<OutputDecoding>) -> (r: ResultOfProcessMessage)
    requires
        decoded@.len() == transaction.out_msgs@.len(),
    ensures
        r.transaction == transaction,
        r.decoded@ == decoded@,
        r.decoded@.len() == r.transaction.out_msgs@.len(),
{
    ResultOfProcessMessage { transaction, decoded }
}

} // verus!
