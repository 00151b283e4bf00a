//! Properties of the transform over all blocks and transactions.

use vstd::prelude::*;
use crate::id::lemma_key_distinguishes_prefix;
use crate::json::parsed_json;
use crate::model::{BlockData, BlockOutcome, Transaction, TransactionEntity, TransformError};
use crate::transform::{block_outcome_of, entity_of, failure_of};

verus! {

/// A block none of whose transactions fails yields exactly one entity per transaction, in
/// transaction order, each keyed by its own transaction's identifier.
pub proof fn lemma_one_entity_per_transaction(block: BlockData, out: BlockOutcome)
    requires
        block_outcome_of(block, out),
        forall|i: int| 0 <= i < block.transactions@.len() ==> failure_of(#[trigger] block.transactions@[i]) is None,
    ensures
        out.failure is None,
        out.entities@.len() == block.transactions@.len(),
        forall|i: int|
            0 <= i < out.entities@.len() ==> #[trigger] entity_of(
                out.entities@[i],
                block.transactions@[i],
                block.time,
            ),
{
    if out.failure is Some {
        let n = out.entities@.len() as int;
        assert(failure_of(block.transactions@[n]) is None);
    }
}

/// The key of an entity depends on its transaction's identifier alone: transactions with the
/// same identifier give the same key, and identifiers that differ in their first eight bytes
/// give different keys.
pub proof fn lemma_key_follows_identifier(
    e1: TransactionEntity,
    tx1: Transaction,
    time1: u64,
    e2: TransactionEntity,
    tx2: Transaction,
    time2: u64,
)
    requires
        entity_of(e1, tx1, time1),
        entity_of(e2, tx2, time2),
    ensures
        tx1.id_view() == tx2.id_view() ==> e1.id == e2.id,
        tx1.id_view().subrange(0, 8) != tx2.id_view().subrange(0, 8) ==> e1.id != e2.id,
{
    lemma_key_distinguishes_prefix(tx1.id_view(), tx2.id_view());
}

/// A Mint transaction's entity has no inputs; a Script or Create transaction's entity has the
/// parsed inputs, and where its inputs text does not parse it fails with `MalformedInput`.
pub proof fn lemma_inputs_present_iff_parsed(e: TransactionEntity, tx: Transaction, time: u64)
    requires
        entity_of(e, tx, time),
    ensures
        tx is Mint ==> e.inputs is None,
        !(tx is Mint) ==> e.inputs is Some && e.inputs == parsed_json(tx.inputs_view()->0),
{
}

/// Where a Script or Create transaction's inputs text does not parse, the transaction fails
/// with `MalformedInput` and yields no entity.
pub proof fn lemma_unparsed_inputs_fail(tx: Transaction, time: u64)
    requires
        !(tx is Mint),
        parsed_json(tx.inputs_view()->0) is None,
    ensures
        failure_of(tx) == Some(TransformError::MalformedInput),
        forall|e: TransactionEntity| !entity_of(e, tx, time),
{
}

/// Every entity made from a block carries that block's timestamp as its age.
pub proof fn lemma_age_is_block_time(block: BlockData, out: BlockOutcome)
    requires
        block_outcome_of(block, out),
    ensures
        forall|i: int| 0 <= i < out.entities@.len() ==> (#[trigger] out.entities@[i]).age == block.time,
{
    assert forall|i: int| 0 <= i < out.entities@.len() implies (#[trigger] out.entities@[i]).age
        == block.time by {
        assert(entity_of(out.entities@[i], block.transactions@[i], block.time));
    }
}

} // verus!
