//! The transform from a block's transactions to entities.

use vstd::prelude::*;
use crate::id::{first8_be, first8_bytes_to_u64};
use crate::json::{array_value, json_text, parse_json, parsed_json, to_array_value, to_json_text};
use crate::model::{BlockData, BlockOutcome, Transaction, TransactionEntity, TransformError};

verus! {

/// The inputs an entity gets from `tx`: none for Mint, the parsed text for Script and Create,
/// and `MalformedInput` where that text is not JSON.
pub open spec fn inputs_outcome(tx: Transaction) -> Result<Option<serde_json::Value>, TransformError> {
    match tx.inputs_view() {
        None => Ok(None),
        Some(text) => match parsed_json(text) {
            Some(v) => Ok(Some(v)),
            None => Err(TransformError::MalformedInput),
        },
    }
}

/// The outputs text of an entity made from the records `outs`: the JSON text of their array,
/// or `SerializationError` where no array value can be made of them.
pub open spec fn outputs_outcome(outs: Seq<serde_json::Value>) -> Result<Seq<char>, TransformError> {
    match array_value(outs) {
        Some(v) => Ok(json_text(v)),
        None => Err(TransformError::SerializationError),
    }
}

/// The error that stops the transform of `tx`, if any: its inputs are looked at before its outputs.
pub open spec fn failure_of(tx: Transaction) -> Option<TransformError> {
    match inputs_outcome(tx) {
        Err(e) => Some(e),
        Ok(_) => match outputs_outcome(tx.outputs_view()) {
            Err(e) => Some(e),
            Ok(_) => None,
        },
    }
}

/// `e` is the entity made from `tx` in a block with timestamp `time`.
pub open spec fn entity_of(e: TransactionEntity, tx: Transaction, time: u64) -> bool {
    &&& failure_of(tx) is None
    &&& e.id == first8_be(tx.id_view())
    &&& e.age == time
    &&& e.inputs == inputs_outcome(tx)->Ok_0
    &&& e.outputs@ == outputs_outcome(tx.outputs_view())->Ok_0
}

/// `out` is what the transform makes of `block`: one entity per transaction, in order, up to the
/// first transaction that fails, whose error ends it.
pub open spec fn block_outcome_of(block: BlockData, out: BlockOutcome) -> bool {
    let txs = block.transactions@;
    let n = out.entities@.len();
    &&& n <= txs.len()
    &&& forall|i: int| 0 <= i < n ==> #[trigger] entity_of(out.entities@[i], txs[i], block.time)
    &&& match out.failure {
        None => n == txs.len(),
        Some(e) => n < txs.len() && failure_of(txs[n as int]) == Some(e),
    }
}

/// Parses the inputs of `tx`, where it has any.
fn normalize_inputs(tx: &Transaction) -> (r: Result<Option<serde_json::Value>, TransformError>)
    ensures
        r == inputs_outcome(*tx),
{
    match tx.inputs() {
        None => Ok(None),
        Some(text) => match parse_json(text.as_str()) {
            Ok(v) => Ok(Some(v)),
            Err(_) => Err(TransformError::MalformedInput),
        },
    }
}

/// Writes the records `outs` as the JSON text of one array.
pub fn normalize_outputs(outs: &Vec<serde_json::Value>) -> (r: Result<String, TransformError>)
    ensures
        r is Ok <==> outputs_outcome(outs@) is Ok,
        r is Ok ==> outputs_outcome(outs@) == Ok::<Seq<char>, TransformError>(r->Ok_0@),
        r is Err ==> outputs_outcome(outs@) == Err::<Seq<char>, TransformError>(r->Err_0),
{
    match to_array_value(outs) {
        Ok(v) => Ok(to_json_text(&v)),
        Err(_) => Err(TransformError::SerializationError),
    }
}

/// Makes the entity of `tx` for a block with timestamp `time`.
pub fn transform_transaction(tx: &Transaction, time: u64) -> (r: Result<
    TransactionEntity,
    TransformError,
>)
    ensures
        r is Err <==> failure_of(*tx) is Some,
        r is Err ==> failure_of(*tx) == Some(r->Err_0),
        r is Ok ==> entity_of(r->Ok_0, *tx, time),
{
    let inputs = match normalize_inputs(tx) {
        Ok(v) => v,
        Err(e) => return Err(e),
    };
    let outputs = match normalize_outputs(tx.outputs()) {
        Ok(s) => s,
        Err(e) => return Err(e),
    };
    Ok(TransactionEntity { id: first8_bytes_to_u64(tx.id()), age: time, inputs, outputs })
}

/// Makes the entities of the transactions of `block`, in order, stopping at the first that fails.
pub fn transform_block(block: &BlockData) -> (r: BlockOutcome)
    ensures
        block_outcome_of(*block, r),
{
    let mut entities: Vec<TransactionEntity> = Vec::new();
    let mut i: usize = 0;
    while i < block.transactions.len()
        invariant
            i <= block.transactions@.len(),
            entities@.len() == i,
            forall|j: int|
                0 <= j < i ==> #[trigger] entity_of(
                    entities@[j],
                    block.transactions@[j],
                    block.time,
                ),
        decreases block.transactions@.len() - i,
    {
        match transform_transaction(&block.transactions[i], block.time) {
            Ok(e) => entities.push(e),
            Err(e) => {
                return BlockOutcome { entities, failure: Some(e) };
            },
        }
        i += 1;
    }
    BlockOutcome { entities, failure: None }
}

} // verus!
