use ton_processing::deadline::{
    add_ms, compute_deadline, DeadlineStrategy, ProcessingConfig, DEFAULT_EXPIRATION_TIMEOUT_MS,
};
use ton_processing::locator::{attach_outputs, find_transaction, ids_equal, take_transaction};
use ton_processing::monitor::{BlockMonitor, MonitorStep};
use ton_processing::processor::{Action, MessageProcessor, Phase};
use ton_processing::types::{
    copy_bytes, emit, Block, Message, OutputDecoding, ProcessingError, ProcessingEvent, Transaction,
};
use ton_processing::waiting::{deadline_error, start_waiting};

fn tx(id: u8, in_msg: u8, outs: usize) -> Transaction {
    let mut out_msgs = Vec::new();
    for i in 0..outs {
        out_msgs.push(vec![i as u8]);
    }
    Transaction { id: vec![id], in_msg: vec![in_msg], aborted: false, out_msgs }
}

fn block(seq_no: u64, gen_utime_ms: u64, transactions: Vec<Transaction>) -> Block {
    Block { seq_no, gen_utime_ms, transactions }
}

fn message(id: u8, expiration_time: Option<u64>) -> Message {
    Message { id: vec![id], body: vec![0xAA, id], expiration_time }
}

#[test]
fn add_ms_saturates() {
    assert_eq!(add_ms(40000, 1000), 41000);
    assert_eq!(add_ms(u64::MAX - 5, 10), u64::MAX);
}

#[test]
fn next_timeout_grows_by_half() {
    let cfg = ProcessingConfig::with_wait_timeout(30000);
    assert_eq!(cfg.expiration_timeout_ms, DEFAULT_EXPIRATION_TIMEOUT_MS);
    assert_eq!(cfg.next_timeout(40000), 60000);
    assert_eq!(cfg.next_timeout(60000), 90000);
    assert_eq!(cfg.next_timeout(90000), 135000);
    assert_eq!(cfg.next_timeout(3), 4);
    assert_eq!(cfg.next_timeout(u64::MAX), u64::MAX);
}

#[test]
fn next_timeout_is_strictly_later_each_retry() {
    let cfg = ProcessingConfig::with_wait_timeout(30000);
    let mut t = cfg.expiration_timeout_ms;
    for _ in 0..10 {
        let n = cfg.next_timeout(t);
        assert!(n > t);
        assert_eq!(n, t * 3 / 2);
        t = n;
    }
}

#[test]
fn deadline_of_each_strategy() {
    let e = DeadlineStrategy::new(Some(100000), 5000, 30000);
    assert!(e.is_expiration_based());
    assert_eq!(compute_deadline(&e, 30000), 130000);
    let w = DeadlineStrategy::new(None, 5000, 30000);
    assert!(!w.is_expiration_based());
    assert_eq!(compute_deadline(&w, 30000), 35000);
    let big = DeadlineStrategy::new(Some(u64::MAX - 1), 0, 30000);
    assert_eq!(compute_deadline(&big, 30000), u64::MAX);
}

#[test]
fn ids_compare_by_bytes() {
    assert!(ids_equal(&vec![1, 2, 3], &vec![1, 2, 3]));
    assert!(!ids_equal(&vec![1, 2, 3], &vec![1, 2, 4]));
    assert!(!ids_equal(&vec![1, 2], &vec![1, 2, 3]));
    assert!(ids_equal(&vec![], &vec![]));
    assert_eq!(copy_bytes(&vec![9, 8, 7]), vec![9, 8, 7]);
}

#[test]
fn find_transaction_takes_first_match() {
    let b = block(4, 10, vec![tx(1, 7, 0), tx(2, 9, 0), tx(3, 9, 1)]);
    assert_eq!(find_transaction(&b, &vec![9]), Some(1));
    assert_eq!(find_transaction(&b, &vec![7]), Some(0));
    assert_eq!(find_transaction(&b, &vec![8]), None);
    assert_eq!(find_transaction(&block(5, 10, vec![]), &vec![8]), None);
    let t = take_transaction(b, 2);
    assert_eq!(t.id, vec![3]);
}

#[test]
fn decode_failure_keeps_transaction_and_other_outputs() {
    let t = tx(5, 1, 3);
    let decoded = vec![
        OutputDecoding::Decoded { value: String::from("a") },
        OutputDecoding::Failed { error: ProcessingError::DecodingError { message: String::from("bad body") } },
        OutputDecoding::Decoded { value: String::from("c") },
    ];
    let r = attach_outputs(t, decoded);
    assert_eq!(r.transaction.id, vec![5]);
    assert_eq!(r.decoded.len(), 3);
    assert!(matches!(&r.decoded[0], OutputDecoding::Decoded { value } if value == "a"));
    assert!(matches!(&r.decoded[1], OutputDecoding::Failed { error: ProcessingError::DecodingError { .. } }));
    assert!(matches!(&r.decoded[2], OutputDecoding::Decoded { value } if value == "c"));
}

#[test]
fn monitor_skips_blocks_already_checked() {
    let mut events = Vec::new();
    let mut m = BlockMonitor::new(vec![7], 1000, 10, 0, true, &mut events);
    assert_eq!(m.last_checked_block_ref, 10);
    let s = m.on_block(block(11, 100, vec![]), &mut events);
    assert!(matches!(s, MonitorStep::FetchNext { after: 11 }));
    // The same block again, and one before the start: neither is inspected.
    let s = m.on_block(block(11, 100, vec![tx(1, 7, 0)]), &mut events);
    assert!(matches!(s, MonitorStep::FetchNext { after: 11 }));
    let s = m.on_block(block(9, 100, vec![tx(1, 7, 0)]), &mut events);
    assert!(matches!(s, MonitorStep::FetchNext { after: 11 }));
    assert_eq!(m.last_checked_block_ref, 11);
    let s = m.on_block(block(12, 100, vec![tx(1, 7, 0)]), &mut events);
    assert!(matches!(s, MonitorStep::Found { transaction } if transaction.id == vec![1]));
    assert_eq!(m.last_checked_block_ref, 12);
}

#[test]
fn monitor_resumed_ignores_blocks_before_start() {
    let mut events = Vec::new();
    let mut m = BlockMonitor::new(vec![7], 1000, 50, 0, false, &mut events);
    let s = m.on_block(block(49, 100, vec![tx(1, 7, 0)]), &mut events);
    assert!(matches!(s, MonitorStep::FetchNext { after: 50 }));
    let s = m.on_block(block(50, 100, vec![tx(1, 7, 0)]), &mut events);
    assert!(matches!(s, MonitorStep::FetchNext { after: 50 }));
    assert_eq!(m.last_checked_block_ref, 50);
    assert!(events.is_empty());
}

#[test]
fn monitor_stops_past_deadline() {
    let mut events = Vec::new();
    let mut m = BlockMonitor::new(vec![7], 1000, 1, 0, true, &mut events);
    assert!(matches!(m.on_no_block(1000, &mut events), MonitorStep::FetchNext { after: 1 }));
    assert!(matches!(m.on_no_block(1001, &mut events), MonitorStep::DeadlineReached));
    assert!(matches!(m.on_block(block(2, 1001, vec![]), &mut events), MonitorStep::DeadlineReached));
    assert_eq!(events.len(), 2);
}

#[test]
fn emit_respects_flag() {
    let mut events = Vec::new();
    emit(&mut events, false, ProcessingEvent::WillSend { attempt: 0 });
    assert!(events.is_empty());
    emit(&mut events, true, ProcessingEvent::WillSend { attempt: 0 });
    assert_eq!(events, vec![ProcessingEvent::WillSend { attempt: 0 }]);
}

fn expect_build(a: Action) -> Option<u64> {
    match a {
        Action::BuildMessage { expiration_time } => expiration_time,
        _ => panic!("expected a build request"),
    }
}

#[test]
fn expiring_message_retries_with_growing_timeouts() {
    let cfg = ProcessingConfig::with_wait_timeout(1000);
    let mut p = MessageProcessor::new(cfg, true, true);
    let mut events = Vec::new();
    let mut now = 1_000_000u64;
    let mut requested = expect_build(p.start(now));
    let mut expirations = Vec::new();
    let mut result = None;
    for attempt in 0..10u8 {
        let exp = requested.unwrap();
        expirations.push(exp - now);
        assert!(matches!(p.on_message_built(message(attempt, Some(exp)), now, &mut events), Action::SendMessage));
        assert!(matches!(p.on_sent(Ok(100 + attempt as u64), &mut events), Action::FetchNextBlock { .. }));
        now = exp + 2000;
        match p.on_no_block(now, &mut events) {
            Action::BuildMessage { expiration_time } => requested = expiration_time,
            other => {
                result = Some(other);
                break;
            }
        }
    }
    assert_eq!(expirations, vec![40000, 60000, 90000]);
    assert!(matches!(
        result,
        Some(Action::Done { result: Err(ProcessingError::MessageExpired { attempts: 3 }) })
    ));
    assert_eq!(p.phase, Phase::Failed);
    assert_eq!(p.attempt_count, 3);
}

#[test]
fn non_expiring_message_is_sent_once() {
    let cfg = ProcessingConfig::with_wait_timeout(30000);
    let mut p = MessageProcessor::new(cfg, false, true);
    let mut events = Vec::new();
    assert_eq!(expect_build(p.start(5000)), None);
    assert!(matches!(p.on_message_built(message(1, None), 5000, &mut events), Action::SendMessage));
    assert_eq!(p.deadline, 35000);
    assert!(matches!(p.on_sent(Ok(20), &mut events), Action::FetchNextBlock { after: 20 }));
    assert!(matches!(p.on_block(block(21, 30000, vec![]), 30000, &mut events), Action::FetchNextBlock { after: 21 }));
    let r = p.on_block(block(22, 35001, vec![]), 35001, &mut events);
    assert!(matches!(r, Action::Done { result: Err(ProcessingError::TransactionMissing { deadline: 35000 }) }));
    assert!(p.is_finished());
    assert_eq!(p.attempt_count, 0);
    assert!(!events.iter().any(|e| matches!(e, ProcessingEvent::MessageExpired { .. })));
    assert_eq!(events.iter().filter(|e| matches!(e, ProcessingEvent::WillSend { .. })).count(), 1);
}

#[test]
fn transaction_in_third_block_is_returned() {
    let cfg = ProcessingConfig::with_wait_timeout(30000);
    let mut p = MessageProcessor::new(cfg, true, true);
    let mut events = Vec::new();
    let exp = expect_build(p.start(0)).unwrap();
    assert_eq!(exp, 40000);
    assert!(matches!(p.on_message_built(message(7, Some(exp)), 0, &mut events), Action::SendMessage));
    assert!(matches!(p.on_sent(Ok(300), &mut events), Action::FetchNextBlock { after: 300 }));
    assert!(matches!(p.on_block(block(301, 1000, vec![tx(1, 2, 0)]), 1000, &mut events), Action::FetchNextBlock { after: 301 }));
    assert!(matches!(p.on_block(block(302, 2000, vec![]), 2000, &mut events), Action::FetchNextBlock { after: 302 }));
    let r = p.on_block(block(303, 3000, vec![tx(4, 3, 0), tx(5, 7, 2)]), 3000, &mut events);
    assert!(matches!(r, Action::Done { result: Ok(t) } if t.id == vec![5] && t.out_msgs.len() == 2));
    assert_eq!(p.phase, Phase::Succeeded);
    assert_eq!(p.last_checked_block_ref(), Some(303));
    assert_eq!(
        events,
        vec![
            ProcessingEvent::WillSend { attempt: 0 },
            ProcessingEvent::DidSend { attempt: 0, shard_block_ref: 300 },
            ProcessingEvent::WillFetchNextBlock { attempt: 0, shard_block_ref: 300 },
            ProcessingEvent::WillFetchNextBlock { attempt: 0, shard_block_ref: 301 },
            ProcessingEvent::WillFetchNextBlock { attempt: 0, shard_block_ref: 302 },
            ProcessingEvent::TransactionFound { attempt: 0, shard_block_ref: 303 },
        ]
    );
}

#[test]
fn events_flag_does_not_change_outcome() {
    for flag in [false, true] {
        let cfg = ProcessingConfig::with_wait_timeout(30000);
        let mut p = MessageProcessor::new(cfg, true, flag);
        let mut events = Vec::new();
        let exp = expect_build(p.start(0)).unwrap();
        p.on_message_built(message(7, Some(exp)), 0, &mut events);
        p.on_sent(Ok(1), &mut events);
        let r = p.on_block(block(2, 10, vec![tx(5, 7, 0)]), 10, &mut events);
        assert!(matches!(r, Action::Done { result: Ok(_) }));
        assert_eq!(events.is_empty(), !flag);
    }
}

#[test]
fn wrong_expiration_is_invalid_message() {
    let cfg = ProcessingConfig::with_wait_timeout(30000);
    let mut p = MessageProcessor::new(cfg, true, true);
    let mut events = Vec::new();
    let exp = expect_build(p.start(0)).unwrap();
    let r = p.on_message_built(message(7, Some(exp + 1)), 0, &mut events);
    assert!(matches!(r, Action::Done { result: Err(ProcessingError::InvalidMessage { .. }) }));
    assert_eq!(p.phase, Phase::Failed);
    assert!(events.is_empty());
}

#[test]
fn send_failure_is_network_error() {
    let cfg = ProcessingConfig::with_wait_timeout(30000);
    let mut p = MessageProcessor::new(cfg, false, true);
    let mut events = Vec::new();
    p.start(0);
    p.on_message_built(message(7, None), 0, &mut events);
    let r = p.on_sent(Err(ProcessingError::NetworkError { message: String::from("unreachable") }), &mut events);
    assert!(matches!(r, Action::Done { result: Err(ProcessingError::NetworkError { .. }) }));
    assert_eq!(events, vec![ProcessingEvent::WillSend { attempt: 0 }, ProcessingEvent::SendFailed { attempt: 0 }]);
}

#[test]
fn zero_retry_limit_still_sends_once() {
    let mut cfg = ProcessingConfig::with_wait_timeout(0);
    cfg.retry_limit = 0;
    let mut p = MessageProcessor::new(cfg, true, false);
    let mut events = Vec::new();
    let exp = expect_build(p.start(0)).unwrap();
    p.on_message_built(message(1, Some(exp)), 0, &mut events);
    p.on_sent(Ok(1), &mut events);
    let r = p.on_no_block(exp + 1, &mut events);
    assert!(matches!(r, Action::Done { result: Err(ProcessingError::MessageExpired { attempts: 1 }) }));
}

#[test]
fn waiting_uses_the_strategy_deadline() {
    let cfg = ProcessingConfig::with_wait_timeout(30000);
    let mut events = Vec::new();
    let m = message(3, Some(100000));
    let w = start_waiting(&m, true, 77, 5000, &cfg, true, &mut events);
    assert_eq!(w.deadline, 130000);
    assert_eq!(w.start_ref, 77);
    assert_eq!(w.message_id, vec![3]);
    let w = start_waiting(&m, false, 77, 5000, &cfg, true, &mut events);
    assert_eq!(w.deadline, 35000);
    assert_eq!(events.len(), 2);
    assert!(matches!(deadline_error(true, 5), ProcessingError::MessageExpired { attempts: 1 }));
    assert!(matches!(deadline_error(false, 5), ProcessingError::TransactionMissing { deadline: 5 }));
}
