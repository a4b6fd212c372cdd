use vstd::prelude::*;

use crate::deadline::{compute_deadline, DeadlineStrategy, ProcessingConfig};
use crate::monitor::BlockMonitor;
use crate::types::{copy_bytes, emitted, Message, ProcessingError, ProcessingEvent};

verus! {

/// Starts monitoring for the transaction of an already sent message,
/// resumed from `shard_block_ref`. With an ABI `expire` header the deadline
/// is the message's expiration time plus the wait timeout; otherwise it is
/// `now` plus the wait timeout.
pub fn start_waiting(
    message: &Message,
    expiration_based: bool,
    shard_block_ref: u64,
    now: u64,
    config: &ProcessingConfig,
    send_events: bool,
    events: &mut Vec<ProcessingEvent>,
) -> (r: BlockMonitor)
    ensures
        r.wf(),
        r.message_id@ == message.id@,
        r.start_ref == shard_block_ref,
        r.last_checked_block_ref == shard_block_ref,
        r.inspected@.len() == 0,
        r.attempt == 0,
        r.send_events == send_events,
        r.deadline == DeadlineStrategy::spec_new(
            if expiration_based { message.expiration_time } else { None },
            now,
            config.wait_timeout_ms,
        ).max_block_time(config.wait_timeout_ms),
        final(events)@ == old(events)@ + emitted(
            send_events,
            ProcessingEvent::WillFetchNextBlock { attempt: 0, shard_block_ref },
        ),
{
    let expiration = if expiration_based {
        message.expiration_time
    } else {
        None
    };
    let strategy = DeadlineStrategy::new(expiration, now, config.wait_timeout_ms);
    let deadline = compute_deadline(&strategy, config.wait_timeout_ms);
    BlockMonitor::new(copy_bytes(&message.id), deadline, shard_block_ref, 0, send_events, events)
}

/// The error that ends waiting when the deadline passes: `MessageExpired`
/// under the expiration strategy, `TransactionMissing` otherwise.
pub fn deadline_error(expiration_based: bool, deadline: u64) -> (r: ProcessingError)
    ensures
        expiration_based ==> r == (ProcessingError::MessageExpired { attempts: 1 }),
        !expiration_based ==> r == (ProcessingError::TransactionMissing { deadline }),
{
    if expiration_based {
        ProcessingError::MessageExpired { attempts: 1 }
    } else {
        ProcessingError::TransactionMissing { deadline }
    }
}

} // verus!
