use aoip::{
    encode, resolve_gate, Bridge, Channel, Diagnostic, Direction, ErrorKind, Frame, FrameQueue,
    GateRead, Notifications, PeriodOutcome, TransportCall,
};

fn two_channel_bridge(n: usize, threshold: u64) -> Bridge {
    let channels = vec![
        Channel::new(Direction::Capture, threshold),
        Channel::new(Direction::Playback, threshold),
    ];
    Bridge::new(n, channels)
}

fn engine_buffers(bridge: &Bridge) -> Vec<Frame> {
    (0..bridge.channels.len()).map(|i| Frame::from_samples(vec![i as u32 + 1; bridge.n])).collect()
}

#[test]
fn closed_gate_plans_no_transport_call() {
    let bridge = two_channel_bridge(4, 5);
    let capture = engine_buffers(&bridge);
    let calls = bridge.plan_period(false, &capture);
    assert_eq!(calls, vec![TransportCall::NoCall, TransportCall::NoCall]);
}

#[test]
fn closed_gate_outputs_silence_and_touches_no_channel() {
    let mut bridge = two_channel_bridge(4, 5);
    let before = bridge.channels.clone();
    let outcomes = vec![PeriodOutcome::Skipped, PeriodOutcome::Skipped];
    let outs = bridge.finish_period(false, &outcomes);
    assert_eq!(outs.len(), 2);
    for frame in &outs {
        assert_eq!(frame.samples, vec![0u32; 4], "playback buffers get silence, never stale audio");
    }
    assert_eq!(bridge.channels, before);
}

#[test]
fn open_gate_plans_send_and_poll() {
    let bridge = two_channel_bridge(2, 5);
    let capture = engine_buffers(&bridge);
    let calls = bridge.plan_period(true, &capture);
    assert_eq!(calls[0], TransportCall::SendFrame(encode(&capture[0])));
    assert_eq!(calls[1], TransportCall::PollReceive);
}

#[test]
fn delivered_frame_reaches_the_playback_buffer() {
    let mut bridge = two_channel_bridge(2, 5);
    let incoming = Frame::from_samples(vec![0xCAFE_F00D, 42]);
    let outcomes = vec![PeriodOutcome::SendOk, PeriodOutcome::Delivered(incoming.clone())];
    let outs = bridge.finish_period(true, &outcomes);
    assert_eq!(outs[1], incoming);
    assert_eq!(outs[0].samples, vec![0u32; 2]);
}

#[test]
fn pending_receive_yields_silence() {
    let mut bridge = two_channel_bridge(3, 5);
    let outcomes = vec![PeriodOutcome::SendOk, PeriodOutcome::NoData];
    let outs = bridge.finish_period(true, &outcomes);
    assert_eq!(outs[1].samples, vec![0u32; 3]);
    assert_eq!(bridge.channels[1].consecutive_failures, 0, "no data is not a failure");
}

#[test]
fn failing_channel_does_not_halt_the_others() {
    // A capture channel whose transport fails five periods in a row is marked
    // degraded at the threshold, while the playback channel keeps flowing.
    let mut bridge = two_channel_bridge(2, 5);
    for period in 0..5u64 {
        let incoming = Frame::from_samples(vec![period as u32, 7]);
        let outcomes = vec![
            PeriodOutcome::SendFailed(ErrorKind::IoFailure),
            PeriodOutcome::Delivered(incoming.clone()),
        ];
        let outs = bridge.finish_period(true, &outcomes);
        assert_eq!(outs[1], incoming, "the healthy channel still delivers every period");
        assert_eq!(bridge.channels[0].consecutive_failures, period + 1);
        assert_eq!(bridge.channels[0].degraded, period + 1 >= 5);
        assert!(!bridge.channels[1].degraded);
    }
    assert!(bridge.channels[0].degraded);
}

#[test]
fn success_clears_the_failure_streak() {
    let mut bridge = Bridge::new(1, vec![Channel::new(Direction::Capture, 3)]);
    for _ in 0..3 {
        bridge.finish_period(true, &vec![PeriodOutcome::SendFailed(ErrorKind::Timeout)]);
    }
    assert!(bridge.channels[0].degraded);
    bridge.finish_period(true, &vec![PeriodOutcome::SendOk]);
    assert_eq!(bridge.channels[0].consecutive_failures, 0);
    assert!(!bridge.channels[0].degraded, "recovery clears the degraded mark");
}

#[test]
fn gate_reads_resolve_by_value() {
    assert_eq!(resolve_gate(GateRead::Value(true)), (true, None));
    assert_eq!(resolve_gate(GateRead::Value(false)), (false, None));
}

#[test]
fn poisoned_gate_degrades_to_closed_with_diagnostic() {
    assert_eq!(resolve_gate(GateRead::Poisoned), (false, Some(Diagnostic::LockPoisoned)));
}

#[test]
fn queue_is_first_in_first_out() {
    let mut q = FrameQueue::new(4);
    assert_eq!(q.pop(), None);
    q.push(Frame::from_samples(vec![1]));
    q.push(Frame::from_samples(vec![2]));
    assert_eq!(q.len(), 2);
    assert_eq!(q.pop().unwrap().samples, vec![1]);
    assert_eq!(q.pop().unwrap().samples, vec![2]);
    assert_eq!(q.pop(), None);
    assert_eq!(q.overflows(), 0);
}

#[test]
fn full_queue_drops_the_oldest_frame() {
    let mut q = FrameQueue::new(2);
    q.push(Frame::from_samples(vec![1]));
    q.push(Frame::from_samples(vec![2]));
    q.push(Frame::from_samples(vec![3]));
    assert_eq!(q.len(), 2);
    assert_eq!(q.overflows(), 1);
    assert_eq!(q.pop().unwrap().samples, vec![2], "the oldest frame was dropped");
    assert_eq!(q.pop().unwrap().samples, vec![3]);
}

#[test]
fn notifications_flag_controls_printing() {
    assert!(Notifications(true).verbose());
    assert!(!Notifications(false).verbose());
}
