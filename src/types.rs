use vstd::prelude::*;

verus! {

/// A transaction read from a shard block.
pub struct Transaction {
    /// Identifier of the transaction.
    pub id: Vec<u8>,
    /// Identifier of the inbound message that produced it.
    pub in_msg: Vec<u8>,
    /// Whether the transaction was aborted.
    pub aborted: bool,
    /// Raw bodies of the output messages, in order.
    pub out_msgs: Vec<Vec<u8>>,
}

/// A block of a shard, as the network returns it.
pub struct Block {
    /// Position of the block in its shard's block sequence; this is the
    /// block reference that monitoring resumes from.
    pub seq_no: u64,
    /// Generation time of the block, in milliseconds.
    pub gen_utime_ms: u64,
    /// The transactions of the block, in the block's order.
    pub transactions: Vec<Transaction>,
}

/// An encoded message ready to be sent. A retry builds a new one.
pub struct Message {
    /// Stable identifier: the hash of the encoded bytes.
    pub id: Vec<u8>,
    /// The encoded bytes.
    pub body: Vec<u8>,
    /// The time after which the ledger rejects the message, in
    /// milliseconds, when the ABI declares an `expire` header.
    pub expiration_time: Option<u64>,
}

/// The errors of message processing.
pub enum ProcessingError {
    /// The network layer failed or rejected a request.
    NetworkError { message: String },
    /// The message expired on its last allowed attempt; `attempts` messages
    /// were built for the call.
    MessageExpired { attempts: u64 },
    /// No transaction appeared before the waiting deadline.
    TransactionMissing { deadline: u64 },
    /// An output message body could not be decoded.
    DecodingError { message: String },
    /// The message handed to the engine does not match what it asked for.
    InvalidMessage { message: String },
}

/// A notification about the progress of a run, handed to the caller's sink.
/// `attempt` tells which of the run's messages it concerns (the first is 0).
#[derive(Clone, Copy, Debug, PartialEq, Eq, Structural)]
pub enum ProcessingEvent {
    WillSend { attempt: u64 },
    DidSend { attempt: u64, shard_block_ref: u64 },
    SendFailed { attempt: u64 },
    WillFetchNextBlock { attempt: u64, shard_block_ref: u64 },
    MessageExpired { attempt: u64 },
    TransactionFound { attempt: u64, shard_block_ref: u64 },
}

/// What an event sink receives when `enabled` says whether events are on.
pub open spec fn emitted(enabled: bool, e: ProcessingEvent) -> Seq<ProcessingEvent> {
    if enabled {
        seq![e]
    } else {
        seq![]
    }
}

/// Appends `e` to the event log when events are enabled.
pub fn emit(events: &mut Vec<ProcessingEvent>, enabled: bool, e: ProcessingEvent)
    ensures
        final(events)@ == old(events)@ + emitted(enabled, e),
{
    if enabled {
        events.push(e);
    }
    assert(events@ =~= old(events)@ + emitted(enabled, e));
}

/// Copies an identifier.
pub fn copy_bytes(b: &Vec<u8>) -> (r: Vec<u8>)
    ensures
        r@ == b@,
{
    let mut r: Vec<u8> = Vec::new();
    let mut i: usize = 0;
    while i < b.len()
        invariant
            i <= b@.len(),
            r@ == b@.subrange(0, i as int),
        decreases b@.len() - i,
    {
        r.push(b[i]);
        i = i + 1;
        assert(r@ =~= b@.subrange(0, i as int));
    }
    assert(b@.subrange(0, b@.len() as int) =~= b@);
    r
}

/// The outcome of decoding one output message body.
pub enum OutputDecoding {
    Decoded { value: String },
    Failed { error: ProcessingError },
}

/// A found transaction with the outcome of decoding each of its output
/// messages, in the same order.
pub struct ResultOfProcessMessage {
    pub transaction: Transaction,
    pub decoded: Vec<OutputDecoding>,
}

} // verus!
