use vstd::prelude::*;

use crate::locator::{block_has_message, find_transaction, produced_by, take_transaction};
use crate::types::{emit, emitted, Block, ProcessingEvent, Transaction};

verus! {

/// What the monitor asks for after looking at a block.
pub enum MonitorStep {
    /// Fetch the next block of the shard after the given reference.
    FetchNext { after: u64 },
    /// The awaited transaction was found.
    Found { transaction: Transaction },
    /// The deadline passed with no transaction.
    DeadlineReached,
}

/// Polls the blocks of one shard, in sequence order, for the transaction of
/// one message.
pub struct BlockMonitor {
    /// Identifier of the awaited message.
    pub message_id: Vec<u8>,
    /// Maximum block generation time, in milliseconds.
    pub deadline: u64,
    /// The shard block reference that monitoring started from.
    pub start_ref: u64,
    /// The last block reference looked at (`start_ref` before any block).
    pub last_checked_block_ref: u64,
    /// Which attempt of the run the awaited message belongs to.
    pub attempt: u64,
    /// Whether events are reported.
    pub send_events: bool,
    /// The references of the blocks inspected so far, in order.
    pub inspected: Ghost<Seq<u64>>,
}

/// Every element of `s` is above `lo`, and the elements strictly increase.
pub open spec fn strictly_ascending_above(s: Seq<u64>, lo: u64) -> bool {
    &&& forall|i: int| 0 <= i < s.len() ==> lo < #[trigger] s[i]
    &&& forall|i: int, j: int| 0 <= i < j < s.len() ==> s[i] < s[j]
}

impl BlockMonitor {
    pub open spec fn wf(&self) -> bool {
        &&& strictly_ascending_above(self.inspected@, self.start_ref)
        &&& self.last_checked_block_ref == if self.inspected@.len() == 0 {
            self.start_ref
        } else {
            self.inspected@.last()
        }
    }

    /// Starts monitoring from shard block reference `start_ref`; the first
    /// fetch is for the block after it.
    pub fn new(
        message_id: Vec<u8>,
        deadline: u64,
        start_ref: u64,
        attempt: u64,
        send_events: bool,
        events: &mut Vec<ProcessingEvent>,
    ) -> (r: BlockMonitor)
        ensures
            r.wf(),
            r.message_id@ == message_id@,
            r.deadline == deadline,
            r.start_ref == start_ref,
            r.last_checked_block_ref == start_ref,
            r.attempt == attempt,
            r.send_events == send_events,
            r.inspected@.len() == 0,
            final(events)@ == old(events)@ + emitted(
                send_events,
                ProcessingEvent::WillFetchNextBlock { attempt, shard_block_ref: start_ref },
            ),
    {
        emit(events, send_events, ProcessingEvent::WillFetchNextBlock { attempt, shard_block_ref: start_ref });
        BlockMonitor {
            message_id,
            deadline,
            start_ref,
            last_checked_block_ref: start_ref,
            attempt,
            send_events,
            inspected: Ghost(Seq::empty()),
        }
    }

    /// The event that announces the fetch after `r`.
    pub open spec fn fetch_event(&self, r: u64) -> ProcessingEvent {
        ProcessingEvent::WillFetchNextBlock { attempt: self.attempt, shard_block_ref: r }
    }

    /// Looks at a fetched block. A block at or before the last one checked
    /// is not inspected again: the next block is asked for once more. A new
    /// block is inspected and becomes the last one checked; if it holds the
    /// awaited transaction, that transaction is returned; if it was made past
    /// the deadline, monitoring ends; else the next block is asked for.
    pub fn on_block(&mut self, block: Block, events: &mut Vec<ProcessingEvent>) -> (r: MonitorStep)
        requires
            old(self).wf(),
        ensures
            final(self).wf(),
            final(self).message_id == old(self).message_id,
            final(self).deadline == old(self).deadline,
            final(self).start_ref == old(self).start_ref,
            final(self).attempt == old(self).attempt,
            final(self).send_events == old(self).send_events,
            block.seq_no <= old(self).last_checked_block_ref ==> {
                &&& final(self).inspected@ == old(self).inspected@
                &&& final(self).last_checked_block_ref == old(self).last_checked_block_ref
                &&& r == (MonitorStep::FetchNext { after: old(self).last_checked_block_ref })
                &&& final(events)@ == old(events)@ + emitted(
                    old(self).send_events,
                    old(self).fetch_event(old(self).last_checked_block_ref),
                )
            },
            block.seq_no > old(self).last_checked_block_ref ==> {
                &&& final(self).inspected@ == old(self).inspected@.push(block.seq_no)
                &&& final(self).last_checked_block_ref == block.seq_no
            },
            block.seq_no > old(self).last_checked_block_ref && block_has_message(&block, old(self).message_id@)
                ==> {
                &&& r matches MonitorStep::Found { transaction } && exists|i: int|
                    {
                        &&& 0 <= i < block.transactions@.len()
                        &&& produced_by(&block, i, old(self).message_id@)
                        &&& (forall|j: int| 0 <= j < i ==> !produced_by(&block, j, old(self).message_id@))
                        &&& transaction == block.transactions@[i]
                    }
                &&& final(events)@ == old(events)@ + emitted(
                    old(self).send_events,
                    ProcessingEvent::TransactionFound {
                        attempt: old(self).attempt,
                        shard_block_ref: block.seq_no,
                    },
                )
            },
            block.seq_no > old(self).last_checked_block_ref && !block_has_message(&block, old(self).message_id@)
                && block.gen_utime_ms > old(self).deadline ==> {
                &&& r is DeadlineReached
                &&& final(events)@ == old(events)@
            },
            block.seq_no > old(self).last_checked_block_ref && !block_has_message(&block, old(self).message_id@)
                && block.gen_utime_ms <= old(self).deadline ==> {
                &&& r == (MonitorStep::FetchNext { after: block.seq_no })
                &&& final(events)@ == old(events)@ + emitted(old(self).send_events, old(self).fetch_event(block.seq_no))
            },
    {
        if block.seq_no <= self.last_checked_block_ref {
            let after = self.last_checked_block_ref;
            emit(events, self.send_events, ProcessingEvent::WillFetchNextBlock { attempt: self.attempt, shard_block_ref: after });
            return MonitorStep::FetchNext { after };
        }
        let seq_no = block.seq_no;
        let gen_utime_ms = block.gen_utime_ms;
        proof {
            self.inspected@ = self.inspected@.push(seq_no);
        }
        self.last_checked_block_ref = seq_no;
        match find_transaction(&block, &self.message_id) {
            Some(i) => {
                emit(events, self.send_events, ProcessingEvent::TransactionFound { attempt: self.attempt, shard_block_ref: seq_no });
                let ghost b = block;
                let transaction = take_transaction(block, i);
                assert(produced_by(&b, i as int, self.message_id@));
                MonitorStep::Found { transaction }
            },
            None => {
                if gen_utime_ms > self.deadline {
                    MonitorStep::DeadlineReached
                } else {
                    emit(events, self.send_events, ProcessingEvent::WillFetchNextBlock { attempt: self.attempt, shard_block_ref: seq_no });
                    MonitorStep::FetchNext { after: seq_no }
                }
            },
        }
    }

    /// The network has no next block yet at time `now`. Past the deadline
    /// monitoring ends; before it the next block is asked for again.
    pub fn on_no_block(&self, now: u64, events: &mut Vec<ProcessingEvent>) -> (r: MonitorStep)
        ensures
            now > self.deadline ==> r is DeadlineReached && final(events)@ == old(events)@,
            now <= self.deadline ==> {
                &&& r == (MonitorStep::FetchNext { after: self.last_checked_block_ref })
                &&& final(events)@ == old(events)@ + emitted(self.send_events, self.fetch_event(self.last_checked_block_ref))
            },
    {
        if now > self.deadline {
            MonitorStep::DeadlineReached
        } else {
            emit(events, self.send_events, ProcessingEvent::WillFetchNextBlock { attempt: self.attempt, shard_block_ref: self.last_checked_block_ref });
            MonitorStep::FetchNext { after: self.last_checked_block_ref }
        }
    }
}

/// Within one run the monitor never inspects the same block reference twice.
pub proof fn lemma_no_block_inspected_twice(m: &BlockMonitor)
    requires
        m.wf(),
    ensures
        forall|i: int, j: int| 0 <= i < j < m.inspected@.len() ==> m.inspected@[i] != m.inspected@[j],
{
}

/// Monitoring resumed from shard block reference `start_ref` never inspects
/// a block at or before that reference.
pub proof fn lemma_never_inspects_before_start(m: &BlockMonitor)
    requires
        m.wf(),
    ensures
        forall|i: int| 0 <= i < m.inspected@.len() ==> m.start_ref < #[trigger] m.inspected@[i],
{
}

} // verus!
