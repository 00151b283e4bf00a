//! The block data the transform reads and the entities it produces.

use vstd::prelude::*;

verus! {

/// One transaction of a block. Every kind carries a 32-byte identifier and its output records;
/// Script and Create also carry their inputs as JSON text.
#[derive(Debug)]
pub enum Transaction {
    Script { id: [u8; 32], inputs: String, outputs: Vec<serde_json::Value> },
    Create { id: [u8; 32], inputs: String, outputs: Vec<serde_json::Value> },
    Mint { id: [u8; 32], outputs: Vec<serde_json::Value> },
}

impl Transaction {
    /// The 32 bytes of the identifier.
    pub open spec fn id_view(&self) -> Seq<u8> {
        match self {
            Transaction::Script { id, .. } => id@,
            Transaction::Create { id, .. } => id@,
            Transaction::Mint { id, .. } => id@,
        }
    }

    /// The inputs text, for the kinds that have one.
    pub open spec fn inputs_view(&self) -> Option<Seq<char>> {
        match self {
            Transaction::Script { inputs, .. } => Some(inputs@),
            Transaction::Create { inputs, .. } => Some(inputs@),
            Transaction::Mint { .. } => None,
        }
    }

    /// The output records, in order.
    pub open spec fn outputs_view(&self) -> Seq<serde_json::Value> {
        match self {
            Transaction::Script { outputs, .. } => outputs@,
            Transaction::Create { outputs, .. } => outputs@,
            Transaction::Mint { outputs, .. } => outputs@,
        }
    }

    pub fn id(&self) -> (r: &[u8; 32])
        ensures
            r@ == self.id_view(),
    {
        match self {
            Transaction::Script { id, .. } => id,
            Transaction::Create { id, .. } => id,
            Transaction::Mint { id, .. } => id,
        }
    }

    pub fn inputs(&self) -> (r: Option<&String>)
        ensures
            r is Some <==> self.inputs_view() is Some,
            r is Some ==> self.inputs_view() == Some(r->0@),
    {
        match self {
            Transaction::Script { inputs, .. } => Some(inputs),
            Transaction::Create { inputs, .. } => Some(inputs),
            Transaction::Mint { .. } => None,
        }
    }

    pub fn outputs(&self) -> (r: &Vec<serde_json::Value>)
        ensures
            r@ == self.outputs_view(),
    {
        match self {
            Transaction::Script { outputs, .. } => outputs,
            Transaction::Create { outputs, .. } => outputs,
            Transaction::Mint { outputs, .. } => outputs,
        }
    }
}

/// A block: its height, its timestamp and its transactions in order.
#[derive(Debug)]
pub struct BlockData {
    pub height: u64,
    pub time: u64,
    pub transactions: Vec<Transaction>,
}

/// The persistable record made from one transaction.
#[derive(Debug)]
pub struct TransactionEntity {
    /// Key derived from the transaction's identifier.
    pub id: u64,
    /// The block's timestamp.
    pub age: u64,
    /// The parsed inputs; absent for Mint transactions.
    pub inputs: Option<serde_json::Value>,
    /// The output records as compact JSON text.
    pub outputs: String,
}

/// Why a block could not be transformed or stored.
#[derive(Debug, Clone, Copy, PartialEq, Eq, Structural)]
pub enum TransformError {
    /// The inputs text of a Script or Create transaction is not JSON.
    MalformedInput,
    /// The output records could not be turned into JSON.
    SerializationError,
    /// The store refused an entity.
    StoreUnavailable,
}

/// What the transform made of a block: the entities of the leading transactions that could be
/// transformed, in order, and the error that stopped it, if one did.
#[derive(Debug)]
pub struct BlockOutcome {
    pub entities: Vec<TransactionEntity>,
    pub failure: Option<TransformError>,
}

} // verus!
