use vstd::prelude::*;

use crate::deadline::{add_ms, compute_deadline, sat_add, DeadlineStrategy, ProcessingConfig};
use crate::locator::{block_has_message, produced_by};
use crate::monitor::{BlockMonitor, MonitorStep};
use crate::types::{copy_bytes, emit, emitted, Block, Message, ProcessingError, ProcessingEvent, Transaction};

verus! {

/// Where a run stands.
#[derive(Clone, Copy, Debug, PartialEq, Eq, Structural)]
pub enum Phase {
    /// Not started.
    Idle,
    /// Waiting for the caller to build the message asked for.
    Building,
    /// Waiting for the caller to submit the current message.
    Sending,
    /// Polling the shard for the transaction.
    Monitoring,
    /// The transaction was found.
    Succeeded,
    /// The run ended with an error.
    Failed,
}

/// What the caller performs next for the run.
pub enum Action {
    /// Build the message, with this expiration time in its `expire` header
    /// when one is given, and hand it to `on_message_built`.
    BuildMessage { expiration_time: Option<u64> },
    /// Submit the current message and hand the outcome to `on_sent`.
    SendMessage,
    /// Fetch the next block of the shard after `after` and hand it to
    /// `on_block`, or report to `on_no_block` that there is none yet.
    FetchNextBlock { after: u64 },
    /// The run is over.
    Done { result: Result<Transaction, ProcessingError> },
}

/// The most messages one call may submit under `retry_limit`: the first
/// attempt always happens.
pub open spec fn max_submissions(retry_limit: u64) -> int {
    if retry_limit == 0 {
        1
    } else {
        retry_limit as int
    }
}

/// The state of one run of `process_message`: it sends a message, monitors
/// the shard for its transaction and, for a message with an expiration
/// header, rebuilds and resends it on expiry up to the retry limit.
pub struct MessageProcessor {
    /// Retry and timeout settings of the run.
    pub config: ProcessingConfig,
    /// Whether the ABI declares the `expire` header; chosen once per call.
    pub expiration_based: bool,
    /// Whether events are reported. It changes nothing else.
    pub send_events: bool,
    /// Where the run stands.
    pub phase: Phase,
    /// Number of expirations so far; also the index of the current attempt.
    pub attempt_count: u64,
    /// Expiration timeout of the current attempt, in milliseconds.
    pub current_timeout: u64,
    /// The expiration time asked for in the current attempt.
    pub requested_expiration: Option<u64>,
    /// Maximum block generation time of the current attempt.
    pub deadline: u64,
    /// The message of the current attempt, once built.
    pub current_message: Option<Message>,
    /// The shard block reference captured when the current message was sent.
    pub shard_block_ref_at_send: Option<u64>,
    /// The block monitor of the current attempt, once it was sent.
    pub monitor: Option<BlockMonitor>,
    /// Identifiers of the messages submitted so far, in order.
    pub submitted: Ghost<Seq<Seq<u8>>>,
}

impl MessageProcessor {
    pub open spec fn wf(&self) -> bool {
        &&& self.config.wf()
        &&& self.submitted@.len() <= max_submissions(self.config.retry_limit)
        &&& self.current_timeout == self.config.attempt_timeout(self.attempt_count as nat)
        &&& self.attempt_count <= max_submissions(self.config.retry_limit)
        &&& (!self.expiration_based ==> self.attempt_count == 0 && self.submitted@.len() <= 1)
        &&& (self.phase is Idle ==> self.submitted@.len() == 0 && self.attempt_count == 0)
        &&& (self.phase is Building ==> {
            &&& self.submitted@.len() == self.attempt_count
            &&& (self.attempt_count == 0 || self.attempt_count < self.config.retry_limit)
            &&& (self.expiration_based <==> self.requested_expiration is Some)
        })
        &&& (self.phase is Sending || self.phase is Monitoring ==> {
            &&& self.submitted@.len() == self.attempt_count + 1
            &&& (self.attempt_count == 0 || self.attempt_count < self.config.retry_limit)
            &&& self.current_message matches Some(m) && m.id@ == self.submitted@.last()
        })
        &&& (self.phase is Monitoring ==> {
            &&& self.monitor matches Some(m) && {
                &&& m.wf()
                &&& m.message_id@ == self.submitted@.last()
                &&& m.deadline == self.deadline
                &&& m.attempt == self.attempt_count
                &&& m.send_events == self.send_events
                &&& self.shard_block_ref_at_send == Some(m.start_ref)
            }
        })
        &&& (!self.expiration_based && !(self.phase is Idle || self.phase is Building)
            ==> self.submitted@.len() == 1)
    }

    /// A run that has not started.
    pub fn new(config: ProcessingConfig, expiration_based: bool, send_events: bool) -> (r: MessageProcessor)
        requires
            config.wf(),
        ensures
            r.wf(),
            r.phase is Idle,
            r.config == config,
            r.expiration_based == expiration_based,
            r.send_events == send_events,
            r.submitted@.len() == 0,
    {
        MessageProcessor {
            current_timeout: config.expiration_timeout_ms,
            config,
            expiration_based,
            send_events,
            phase: Phase::Idle,
            attempt_count: 0,
            requested_expiration: None,
            deadline: 0,
            current_message: None,
            shard_block_ref_at_send: None,
            monitor: None,
            submitted: Ghost(Seq::empty()),
        }
    }

    /// The expiration time asked of an attempt that starts at `now`.
    pub open spec fn requested_for(&self, now: u64) -> Option<u64> {
        if self.expiration_based {
            Some(sat_add(now as int, self.current_timeout as int) as u64)
        } else {
            None
        }
    }

    /// Starts the run at time `now`: asks for the first message, expiring
    /// after the base expiration timeout when the ABI supports it.
    pub fn start(&mut self, now: u64) -> (r: Action)
        requires
            old(self).wf(),
            old(self).phase is Idle,
        ensures
            final(self).wf(),
            final(self).phase is Building,
            final(self).attempt_count == 0,
            final(self).current_timeout == old(self).config.expiration_timeout_ms,
            final(self).config == old(self).config,
            final(self).expiration_based == old(self).expiration_based,
            final(self).send_events == old(self).send_events,
            final(self).submitted@ == old(self).submitted@,
            r == (Action::BuildMessage { expiration_time: old(self).requested_for(now) }),
            final(self).requested_expiration == old(self).requested_for(now),
    {
        let requested = if self.expiration_based {
            Some(add_ms(now, self.current_timeout))
        } else {
            None
        };
        self.requested_expiration = requested;
        self.phase = Phase::Building;
        Action::BuildMessage { expiration_time: requested }
    }

    /// Takes the message built for the current attempt at time `now`. For
    /// a message with an expiration header, its expiration time must be the
    /// one asked for, else the run fails with `InvalidMessage`. Otherwise
    /// the attempt's deadline is fixed and the message is to be submitted.
    pub fn on_message_built(&mut self, message: Message, now: u64, events: &mut Vec<ProcessingEvent>) -> (r: Action)
        requires
            old(self).wf(),
            old(self).phase is Building,
        ensures
            final(self).wf(),
            final(self).config == old(self).config,
            final(self).expiration_based == old(self).expiration_based,
            final(self).send_events == old(self).send_events,
            final(self).attempt_count == old(self).attempt_count,
            final(self).current_timeout == old(self).current_timeout,
            old(self).expiration_based && message.expiration_time != old(self).requested_expiration ==> {
                &&& final(self).phase is Failed
                &&& r matches Action::Done { result: Err(ProcessingError::InvalidMessage { .. }) }
                &&& final(self).submitted@ == old(self).submitted@
                &&& final(events)@ == old(events)@
            },
            !(old(self).expiration_based && message.expiration_time != old(self).requested_expiration) ==> {
                &&& final(self).phase is Sending
                &&& r is SendMessage
                &&& final(self).submitted@ == old(self).submitted@.push(message.id@)
                &&& final(self).deadline == (if old(self).expiration_based {
                    DeadlineStrategy::spec_new(message.expiration_time, now, old(self).config.wait_timeout_ms)
                } else {
                    DeadlineStrategy::spec_new(None, now, old(self).config.wait_timeout_ms)
                }).max_block_time(old(self).config.wait_timeout_ms)
                &&& final(self).current_message == Some(message)
                &&& final(events)@ == old(events)@ + emitted(
                    old(self).send_events,
                    ProcessingEvent::WillSend { attempt: old(self).attempt_count },
                )
            },
    {
        if self.expiration_based {
            let matches_request = match (message.expiration_time, self.requested_expiration) {
                (Some(a), Some(b)) => a == b,
                (None, None) => true,
                _ => false,
            };
            if !matches_request {
                self.phase = Phase::Failed;
                return Action::Done {
                    result: Err(ProcessingError::InvalidMessage {
                        message: String::from_str("message expiration time differs from the one requested"),
                    }),
                };
            }
        }
        let expiration = if self.expiration_based {
            message.expiration_time
        } else {
            None
        };
        let strategy = DeadlineStrategy::new(expiration, now, self.config.wait_timeout_ms);
        self.deadline = compute_deadline(&strategy, self.config.wait_timeout_ms);
        proof {
            self.submitted@ = self.submitted@.push(message.id@);
        }
        emit(events, self.send_events, ProcessingEvent::WillSend { attempt: self.attempt_count });
        self.current_message = Some(message);
        self.phase = Phase::Sending;
        Action::SendMessage
    }

    /// Takes the outcome of submitting the current message: the shard block
    /// reference current at submission, or the error of the network layer,
    /// which ends the run. On success monitoring starts from that reference.
    pub fn on_sent(&mut self, outcome: Result<u64, ProcessingError>, events: &mut Vec<ProcessingEvent>) -> (r: Action)
        requires
            old(self).wf(),
            old(self).phase is Sending,
        ensures
            final(self).wf(),
            final(self).config == old(self).config,
            final(self).expiration_based == old(self).expiration_based,
            final(self).send_events == old(self).send_events,
            final(self).attempt_count == old(self).attempt_count,
            final(self).submitted@ == old(self).submitted@,
            final(self).deadline == old(self).deadline,
            final(self).current_timeout == old(self).current_timeout,
            outcome matches Ok(shard_ref) ==> {
                &&& final(self).phase is Monitoring
                &&& final(self).shard_block_ref_at_send == Some(shard_ref)
                &&& r == (Action::FetchNextBlock { after: shard_ref })
                &&& final(events)@ == old(events)@ + emitted(
                    old(self).send_events,
                    ProcessingEvent::DidSend { attempt: old(self).attempt_count, shard_block_ref: shard_ref },
                ) + emitted(
                    old(self).send_events,
                    ProcessingEvent::WillFetchNextBlock { attempt: old(self).attempt_count, shard_block_ref: shard_ref },
                )
            },
            outcome matches Err(e) ==> {
                &&& final(self).phase is Failed
                &&& r == (Action::Done { result: Err(e) })
                &&& final(events)@ == old(events)@ + emitted(
                    old(self).send_events,
                    ProcessingEvent::SendFailed { attempt: old(self).attempt_count },
                )
            },
    {
        match outcome {
            Ok(shard_ref) => {
                let ghost e0 = events@;
                emit(events, self.send_events, ProcessingEvent::DidSend { attempt: self.attempt_count, shard_block_ref: shard_ref });
                let id = match &self.current_message {
                    Some(m) => copy_bytes(&m.id),
                    None => Vec::new(),
                };
                let monitor = BlockMonitor::new(id, self.deadline, shard_ref, self.attempt_count, self.send_events, events);
                self.monitor = Some(monitor);
                self.shard_block_ref_at_send = Some(shard_ref);
                self.phase = Phase::Monitoring;
                Action::FetchNextBlock { after: shard_ref }
            },
            Err(e) => {
                emit(events, self.send_events, ProcessingEvent::SendFailed { attempt: self.attempt_count });
                self.phase = Phase::Failed;
                Action::Done { result: Err(e) }
            },
        }
    }

    /// What follows when the deadline of the current attempt passes at time
    /// `now`, from state `s` to state `t`, with event log `e0` becoming `e1`
    /// and action `r`.
    pub open spec fn deadline_outcome(
        s: MessageProcessor,
        now: u64,
        t: MessageProcessor,
        e0: Seq<ProcessingEvent>,
        e1: Seq<ProcessingEvent>,
        r: Action,
    ) -> bool {
        &&& s.expiration_based ==> t.attempt_count == s.attempt_count + 1
        &&& s.expiration_based ==> e1 == e0 + emitted(
            s.send_events,
            ProcessingEvent::MessageExpired { attempt: s.attempt_count },
        )
        &&& s.expiration_based && s.attempt_count + 1 < s.config.retry_limit ==> {
            &&& t.phase is Building
            &&& t.current_timeout == s.config.grow(s.current_timeout as int)
            &&& t.requested_expiration == Some(sat_add(now as int, t.current_timeout as int) as u64)
            &&& r == (Action::BuildMessage { expiration_time: t.requested_expiration })
        }
        &&& s.expiration_based && s.attempt_count + 1 >= s.config.retry_limit ==> {
            &&& t.phase is Failed
            &&& r matches Action::Done { result: Err(ProcessingError::MessageExpired { attempts }) }
            &&& attempts == s.attempt_count + 1
        }
        &&& !s.expiration_based ==> {
            &&& t.phase is Failed
            &&& r matches Action::Done { result: Err(ProcessingError::TransactionMissing { deadline }) }
            &&& deadline == s.deadline
            &&& t.attempt_count == s.attempt_count
            &&& e1 == e0
        }
    }

    /// The deadline of the current attempt passed at time `now` with no
    /// transaction. A message with an expiration header is rebuilt with a
    /// grown timeout while the attempts stay below the retry limit, and the
    /// run fails with `MessageExpired` once they reach it. A message without
    /// one ends the run with `TransactionMissing`.
    fn on_deadline(&mut self, now: u64, events: &mut Vec<ProcessingEvent>) -> (r: Action)
        requires
            old(self).wf(),
            old(self).phase is Monitoring,
        ensures
            final(self).wf(),
            final(self).config == old(self).config,
            final(self).expiration_based == old(self).expiration_based,
            final(self).send_events == old(self).send_events,
            final(self).submitted@ == old(self).submitted@,
            Self::deadline_outcome(*old(self), now, *final(self), old(events)@, final(events)@, r),
    {
        if !self.expiration_based {
            self.phase = Phase::Failed;
            return Action::Done { result: Err(ProcessingError::TransactionMissing { deadline: self.deadline }) };
        }
        emit(events, self.send_events, ProcessingEvent::MessageExpired { attempt: self.attempt_count });
        let count = self.attempt_count + 1;
        if count < self.config.retry_limit {
            let t = self.config.next_timeout(self.current_timeout);
            let requested = Some(add_ms(now, t));
            self.attempt_count = count;
            self.current_timeout = t;
            self.requested_expiration = requested;
            self.monitor = None;
            self.phase = Phase::Building;
            Action::BuildMessage { expiration_time: requested }
        } else {
            self.attempt_count = count;
            self.current_timeout = self.config.next_timeout(self.current_timeout);
            self.phase = Phase::Failed;
            Action::Done { result: Err(ProcessingError::MessageExpired { attempts: count }) }
        }
    }

    /// The last block reference that the current attempt's monitor checked.
    pub open spec fn spec_last_checked(&self) -> u64 {
        self.monitor->Some_0.last_checked_block_ref
    }

    /// Identifier of the message being monitored.
    pub open spec fn awaited(&self) -> Seq<u8> {
        self.submitted@.last()
    }

    /// Takes the next block of the shard, fetched at time `now`. A block at
    /// or before the last one checked is skipped. A new block that holds the
    /// transaction of the current message ends the run with it; one made past
    /// the deadline ends the attempt; else the next block is asked for.
    pub fn on_block(&mut self, block: Block, now: u64, events: &mut Vec<ProcessingEvent>) -> (r: Action)
        requires
            old(self).wf(),
            old(self).phase is Monitoring,
        ensures
            final(self).wf(),
            final(self).config == old(self).config,
            final(self).expiration_based == old(self).expiration_based,
            final(self).send_events == old(self).send_events,
            final(self).submitted@ == old(self).submitted@,
            final(self).phase is Monitoring ==> {
                &&& final(self).deadline == old(self).deadline
                &&& final(self).attempt_count == old(self).attempt_count
                &&& final(self).current_timeout == old(self).current_timeout
            },
            block.seq_no <= old(self).spec_last_checked() ==> {
                &&& final(self).phase is Monitoring
                &&& final(self).spec_last_checked() == old(self).spec_last_checked()
                &&& r == (Action::FetchNextBlock { after: old(self).spec_last_checked() })
                &&& final(events)@ == old(events)@ + emitted(
                    old(self).send_events,
                    ProcessingEvent::WillFetchNextBlock {
                        attempt: old(self).attempt_count,
                        shard_block_ref: old(self).spec_last_checked(),
                    },
                )
            },
            block.seq_no > old(self).spec_last_checked() && block_has_message(&block, old(self).awaited()) ==> {
                &&& final(self).phase is Succeeded
                &&& final(self).spec_last_checked() == block.seq_no
                &&& r matches Action::Done { result: Ok(transaction) } && exists|i: int|
                    {
                        &&& 0 <= i < block.transactions@.len()
                        &&& produced_by(&block, i, old(self).awaited())
                        &&& (forall|j: int| 0 <= j < i ==> !produced_by(&block, j, old(self).awaited()))
                        &&& transaction == block.transactions@[i]
                    }
                &&& final(events)@ == old(events)@ + emitted(
                    old(self).send_events,
                    ProcessingEvent::TransactionFound { attempt: old(self).attempt_count, shard_block_ref: block.seq_no },
                )
            },
            block.seq_no > old(self).spec_last_checked() && !block_has_message(&block, old(self).awaited())
                && block.gen_utime_ms <= old(self).deadline ==> {
                &&& final(self).phase is Monitoring
                &&& final(self).spec_last_checked() == block.seq_no
                &&& r == (Action::FetchNextBlock { after: block.seq_no })
                &&& final(events)@ == old(events)@ + emitted(
                    old(self).send_events,
                    ProcessingEvent::WillFetchNextBlock { attempt: old(self).attempt_count, shard_block_ref: block.seq_no },
                )
            },
            block.seq_no > old(self).spec_last_checked() && !block_has_message(&block, old(self).awaited())
                && block.gen_utime_ms > old(self).deadline ==> Self::deadline_outcome(
                *old(self),
                now,
                *final(self),
                old(events)@,
                final(events)@,
                r,
            ),
    {
        let taken = self.monitor.take();
        let mut m = match taken {
            Some(m) => m,
            None => {
                proof {
                    assert(false);
                }
                return Action::SendMessage;
            },
        };
        let step = m.on_block(block, events);
        self.monitor = Some(m);
        match step {
            MonitorStep::FetchNext { after } => Action::FetchNextBlock { after },
            MonitorStep::Found { transaction } => {
                self.phase = Phase::Succeeded;
                Action::Done { result: Ok(transaction) }
            },
            MonitorStep::DeadlineReached => self.on_deadline(now, events),
        }
    }

    /// The network has no next block yet at time `now`. Past the deadline
    /// the attempt ends; before it the next block is asked for again.
    pub fn on_no_block(&mut self, now: u64, events: &mut Vec<ProcessingEvent>) -> (r: Action)
        requires
            old(self).wf(),
            old(self).phase is Monitoring,
        ensures
            final(self).wf(),
            final(self).config == old(self).config,
            final(self).expiration_based == old(self).expiration_based,
            final(self).send_events == old(self).send_events,
            final(self).submitted@ == old(self).submitted@,
            final(self).phase is Monitoring ==> {
                &&& final(self).deadline == old(self).deadline
                &&& final(self).attempt_count == old(self).attempt_count
                &&& final(self).current_timeout == old(self).current_timeout
            },
            now <= old(self).deadline ==> {
                &&& final(self).phase is Monitoring
                &&& final(self).spec_last_checked() == old(self).spec_last_checked()
                &&& r == (Action::FetchNextBlock { after: old(self).spec_last_checked() })
                &&& final(events)@ == old(events)@ + emitted(
                    old(self).send_events,
                    ProcessingEvent::WillFetchNextBlock {
                        attempt: old(self).attempt_count,
                        shard_block_ref: old(self).spec_last_checked(),
                    },
                )
            },
            now > old(self).deadline ==> Self::deadline_outcome(
                *old(self),
                now,
                *final(self),
                old(events)@,
                final(events)@,
                r,
            ),
    {
        let step = match &self.monitor {
            Some(m) => m.on_no_block(now, events),
            None => {
                proof {
                    assert(false);
                }
                return Action::SendMessage;
            },
        };
        match step {
            MonitorStep::FetchNext { after } => Action::FetchNextBlock { after },
            MonitorStep::Found { transaction } => Action::Done { result: Ok(transaction) },
            MonitorStep::DeadlineReached => self.on_deadline(now, events),
        }
    }

    /// The last block reference checked by the current attempt, once
    /// monitoring has started.
    pub fn last_checked_block_ref(&self) -> (r: Option<u64>)
        ensures
            self.monitor matches Some(m) ==> r == Some(m.last_checked_block_ref),
            self.monitor is None ==> r is None,
    {
        match &self.monitor {
            Some(m) => Some(m.last_checked_block_ref),
            None => None,
        }
    }

    /// Whether the run is over.
    pub fn is_finished(&self) -> (r: bool)
        ensures
            r == (self.phase is Succeeded || self.phase is Failed),
    {
        match self.phase {
            Phase::Succeeded | Phase::Failed => true,
            _ => false,
        }
    }
}

/// One call submits at most `retry_limit + 1` messages, hence at most that
/// many distinct message identifiers, in every state of its run.
pub proof fn lemma_submissions_bounded(p: &MessageProcessor)
    requires
        p.wf(),
    ensures
        p.submitted@.len() <= p.config.retry_limit + 1,
{
}

/// A message without expiration support is submitted exactly once, whatever
/// the outcome of its run.
pub proof fn lemma_single_submission_without_expiration(p: &MessageProcessor)
    requires
        p.wf(),
        !p.expiration_based,
        p.phase is Succeeded || p.phase is Failed,
    ensures
        p.submitted@.len() == 1,
        p.attempt_count == 0,
{
}

} // verus!
