use aoip::{
    encode, ErrorKind, Frame, ReceiveOutcome, Tcp, TcpEvent, TcpState, TransportError, Udp,
};

#[test]
fn udp_send_emits_one_wire_frame() {
    let udp = Udp::new(4, 0);
    let frame = Frame::from_samples(vec![0x0102_0304, 0, 0xFFFF_FFFF, 7]);
    let datagram = udp.send(&frame);
    assert_eq!(datagram.len(), 16);
    assert_eq!(datagram, encode(&frame));
}

#[test]
fn udp_loopback_round_trips_the_concrete_frame() {
    // N = 4, Frame = [1.0, -1.0, 0.5, 0.25]: one loopback hop — the datagram
    // the sender emits is exactly what the receiver is handed.
    let values = [1.0f32, -1.0, 0.5, 0.25];
    let sender = Udp::new(4, 0);
    let receiver = Udp::new(4, 1);
    let frame = Frame::from_samples(values.iter().map(|v| v.to_bits()).collect());
    let datagram = sender.send(&frame);
    let mut out = Frame::silence(4);
    let r = receiver.receive(&datagram, &mut out);
    assert_eq!(r, Ok(ReceiveOutcome::Filled));
    let back: Vec<f32> = out.samples.iter().map(|b| f32::from_bits(*b)).collect();
    assert_eq!(back, values);
}

#[test]
fn udp_short_datagram_is_short_read_and_no_decode() {
    let udp = Udp::new(4, 3);
    let mut out = Frame::from_samples(vec![9, 9, 9, 9]);
    let datagram = vec![1u8; 15];
    let r = udp.receive(&datagram, &mut out);
    assert_eq!(r, Err(TransportError { kind: ErrorKind::ShortRead, channel: 3 }));
    assert_eq!(out.samples, vec![9, 9, 9, 9], "a short datagram never reaches the decoder");
}

#[test]
fn udp_oversized_datagram_is_rejected() {
    let udp = Udp::new(4, 2);
    let mut out = Frame::silence(4);
    let datagram = vec![1u8; 17];
    let r = udp.receive(&datagram, &mut out);
    assert_eq!(r, Err(TransportError { kind: ErrorKind::Oversized, channel: 2 }));
    assert_eq!(out.samples, vec![0, 0, 0, 0]);
}

#[test]
fn tcp_listener_poll_is_pending_not_an_error() {
    let mut tcp = Tcp::listener(4, 0);
    let mut out = Frame::silence(4);
    for _ in 0..3 {
        let r = tcp.receive(TcpEvent::NoPending, &mut out);
        assert_eq!(r, Ok(ReceiveOutcome::Pending));
        assert_eq!(tcp.state, TcpState::Listening);
    }
}

#[test]
fn tcp_accept_transitions_once_and_reports_pending() {
    let mut tcp = Tcp::listener(2, 0);
    let mut out = Frame::silence(2);
    let r = tcp.receive(TcpEvent::Accepted, &mut out);
    assert_eq!(r, Ok(ReceiveOutcome::Pending), "the accepting period carries no data");
    assert_eq!(tcp.state, TcpState::Connected);
    // Connected is terminal: accept events are no longer meaningful.
    let r2 = tcp.receive(TcpEvent::Accepted, &mut out);
    assert_eq!(r2, Err(TransportError { kind: ErrorKind::InvalidState, channel: 0 }));
    assert_eq!(tcp.state, TcpState::Connected);
}

#[test]
fn tcp_send_on_listener_is_invalid_state() {
    let tcp = Tcp::listener(2, 5);
    let frame = Frame::silence(2);
    let r = tcp.send(&frame);
    assert_eq!(r, Err(TransportError { kind: ErrorKind::InvalidState, channel: 5 }));
}

#[test]
fn tcp_send_when_connected_is_the_wire_frame() {
    let tcp = Tcp::connected(2, 0);
    let frame = Frame::from_samples(vec![0xAABB_CCDD, 0x0011_2233]);
    let bytes = tcp.send(&frame).expect("a connected stream sends");
    assert_eq!(bytes, encode(&frame));
}

#[test]
fn tcp_receive_reassembles_split_delivery() {
    // A 4096-byte wire frame (N = 1024) arriving as 3000 then 1096 bytes.
    let n = 1024usize;
    let samples: Vec<u32> = (0..n as u32).map(|i| (i as f32).to_bits()).collect();
    let frame = Frame::from_samples(samples.clone());
    let wire = encode(&frame);
    assert_eq!(wire.len(), 4096);

    let mut tcp = Tcp::connected(n, 0);
    let mut out = Frame::silence(n);
    assert_eq!(tcp.bytes_needed(), 4096);

    let first = wire[..3000].to_vec();
    let r1 = tcp.receive(TcpEvent::Bytes(first), &mut out);
    assert_eq!(r1, Ok(ReceiveOutcome::Pending));
    assert_eq!(tcp.bytes_needed(), 1096);

    let second = wire[3000..].to_vec();
    let r2 = tcp.receive(TcpEvent::Bytes(second), &mut out);
    assert_eq!(r2, Ok(ReceiveOutcome::Filled));
    assert_eq!(out.samples, samples, "the split delivery reconstructs the original frame");
    assert_eq!(tcp.bytes_needed(), 4096, "the machine is ready for the next frame");
}

#[test]
fn tcp_receive_reassembles_byte_by_byte() {
    let samples = vec![0x0102_0304u32];
    let wire = encode(&Frame::from_samples(samples.clone()));
    let mut tcp = Tcp::connected(1, 0);
    let mut out = Frame::silence(1);
    for (i, byte) in wire.iter().enumerate() {
        let r = tcp.receive(TcpEvent::Bytes(vec![*byte]), &mut out);
        if i < 3 {
            assert_eq!(r, Ok(ReceiveOutcome::Pending));
        } else {
            assert_eq!(r, Ok(ReceiveOutcome::Filled));
        }
    }
    assert_eq!(out.samples, samples);
}

#[test]
fn tcp_peer_close_before_full_frame_is_connection_closed() {
    let mut tcp = Tcp::connected(1, 4);
    let mut out = Frame::silence(1);
    let r1 = tcp.receive(TcpEvent::Bytes(vec![1, 2]), &mut out);
    assert_eq!(r1, Ok(ReceiveOutcome::Pending));
    let r2 = tcp.receive(TcpEvent::Closed, &mut out);
    assert_eq!(r2, Err(TransportError { kind: ErrorKind::ConnectionClosed, channel: 4 }));
    assert_eq!(tcp.state, TcpState::Connected);
}

#[test]
fn tcp_socket_failure_is_io_failure() {
    let mut tcp = Tcp::connected(1, 6);
    let mut out = Frame::silence(1);
    let r = tcp.receive(TcpEvent::IoError, &mut out);
    assert_eq!(r, Err(TransportError { kind: ErrorKind::IoFailure, channel: 6 }));
}
