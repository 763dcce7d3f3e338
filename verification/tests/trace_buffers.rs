use soulsystem::buffers::{LogProbBuffer, TraceBuffer, MAX_TRACE_SYMBOLS};

#[derive(Clone, Copy, Debug, PartialEq, Default)]
struct Trace {
    context: u64,
    response_log_prob: f64,
    sft_log_prob: f64,
    reward: f64,
}

fn trace(ctx: u64, rlp: f64, slp: f64, reward: f64) -> Trace {
    Trace { context: ctx, response_log_prob: rlp, sft_log_prob: slp, reward }
}

#[test]
fn buffer_rejects_overflow() {
    let mut buf: LogProbBuffer<f64> = LogProbBuffer::new(0.0);
    let mut pushed = 0;
    while buf.push(-1.0, -1.0) {
        pushed += 1;
    }
    assert_eq!(pushed, MAX_TRACE_SYMBOLS);
    assert_eq!(buf.len(), MAX_TRACE_SYMBOLS);
    buf.clear();
    assert_eq!(buf.len(), 0);
}

#[test]
fn trace_buffer_overflow_returns_false() {
    let mut buf: TraceBuffer<Trace> = TraceBuffer::new(Trace::default());
    let mut pushed = 0;
    while buf.push(trace(0, -1.0, -1.0, 0.0)) {
        pushed += 1;
    }
    assert_eq!(pushed, MAX_TRACE_SYMBOLS);
    assert_eq!(buf.len(), MAX_TRACE_SYMBOLS);
    assert!(!buf.push(trace(0, 0.0, 0.0, 0.0)));
}

#[test]
fn entries_keep_their_order() {
    let mut buf: TraceBuffer<Trace> = TraceBuffer::default();
    assert!(buf.is_empty());
    assert!(buf.push(trace(1, -2.0, -1.0, 5.0)));
    assert!(buf.push(trace(2, -1.0, -2.0, 4.0)));
    assert_eq!(buf.len(), 2);
    assert_eq!(buf.get(0).context, 1);
    assert_eq!(buf.get(1).reward, 4.0);
    let contexts: Vec<u64> = buf.as_slice().iter().map(|t| t.context).collect();
    assert_eq!(contexts, vec![1, 2]);
}

#[test]
fn clearing_keeps_the_slots() {
    let mut buf: LogProbBuffer<f64> = LogProbBuffer::default();
    assert_eq!(buf.response_log_probs().len(), MAX_TRACE_SYMBOLS);
    assert!(buf.push(-0.5, -0.25));
    assert_eq!(buf.response_log_probs()[0], -0.5);
    assert_eq!(buf.sft_log_probs()[0], -0.25);
    buf.clear();
    assert_eq!(buf.len(), 0);
    assert_eq!(buf.response_log_probs()[0], -0.5);
    assert_eq!(buf.sft_log_probs().len(), MAX_TRACE_SYMBOLS);
    assert!(buf.push(-3.0, -4.0));
    assert_eq!(buf.response_log_probs()[0], -3.0);
}

#[test]
fn a_full_batch_keeps_the_first_entries() {
    let mut buf: TraceBuffer<u32> = TraceBuffer::new(0);
    for i in 0..(MAX_TRACE_SYMBOLS as u32 + 10) {
        buf.push(i);
    }
    assert_eq!(buf.len(), MAX_TRACE_SYMBOLS);
    let expected: Vec<u32> = (0..MAX_TRACE_SYMBOLS as u32).collect();
    assert_eq!(buf.as_slice(), expected.as_slice());
}

#[test]
fn a_push_writes_only_its_own_slot() {
    let mut buf: LogProbBuffer<f64> = LogProbBuffer::new(7.0);
    assert!(buf.push(-1.0, -2.0));
    assert_eq!(buf.response_log_probs()[0], -1.0);
    assert_eq!(buf.sft_log_probs()[0], -2.0);
    assert_eq!(buf.response_log_probs()[1], 7.0);
    assert_eq!(buf.sft_log_probs()[MAX_TRACE_SYMBOLS - 1], 7.0);
}
