use futures::channel::mpsc::unbounded;
use telemetry_bridge::buffer::SampleBuffer;
use telemetry_bridge::codec::{encode_frame, encode_loop_time, take_frame, DecodeError, FrameTake};
use telemetry_bridge::conn::{conn_step, ConnError, ConnEvent, ConnState};
use telemetry_bridge::consumer::{apply, drain_apply};
use telemetry_bridge::listener::{
    accept_step, bind_plan, AcceptAction, AcceptError, AcceptEvent, BindAction, BindError,
};
use telemetry_bridge::msg::Msg;

#[test]
fn drain_with_nothing_pending_applies_nothing() {
    let (_sx, mut rx) = unbounded::<Msg>();
    let mut buf = SampleBuffer::new(4);
    buf.push_overwrite(5);
    let n = drain_apply(&mut buf, &mut rx);
    assert_eq!(n, 0);
    assert_eq!(buf.samples(), vec![5]);
}

#[test]
fn drain_applies_each_queued_message_once_in_order() {
    let (sx, mut rx) = unbounded::<Msg>();
    for d in [1, 2, 3] {
        sx.unbounded_send(Msg::LoopTime(d)).unwrap();
    }
    let mut buf = SampleBuffer::new(8);
    assert_eq!(drain_apply(&mut buf, &mut rx), 3);
    assert_eq!(buf.samples(), vec![1, 2, 3]);
    // a second drain finds nothing new
    assert_eq!(drain_apply(&mut buf, &mut rx), 0);
    assert_eq!(buf.samples(), vec![1, 2, 3]);
}

#[test]
fn drain_ignores_unknown_kinds() {
    let (sx, mut rx) = unbounded::<Msg>();
    sx.unbounded_send(Msg::LoopTime(1)).unwrap();
    sx.unbounded_send(Msg::Unknown(9)).unwrap();
    sx.unbounded_send(Msg::LoopTime(2)).unwrap();
    let mut buf = SampleBuffer::new(4);
    assert_eq!(drain_apply(&mut buf, &mut rx), 3);
    assert_eq!(buf.samples(), vec![1, 2]);
}

#[test]
fn apply_routes_by_kind() {
    let mut buf = SampleBuffer::new(2);
    apply(&mut buf, Msg::LoopTime(4));
    apply(&mut buf, Msg::Unknown(0));
    apply(&mut buf, Msg::LoopTime(6));
    apply(&mut buf, Msg::LoopTime(8));
    assert_eq!(buf.samples(), vec![6, 8]);
}

#[test]
fn two_senders_interleave_with_per_sender_order_kept() {
    let (sx_a, mut rx) = unbounded::<Msg>();
    let sx_b = sx_a.clone();
    sx_a.unbounded_send(Msg::LoopTime(11)).unwrap();
    sx_b.unbounded_send(Msg::LoopTime(21)).unwrap();
    sx_a.unbounded_send(Msg::LoopTime(12)).unwrap();
    sx_b.unbounded_send(Msg::LoopTime(22)).unwrap();
    let mut buf = SampleBuffer::new(8);
    assert_eq!(drain_apply(&mut buf, &mut rx), 4);
    let s = buf.samples();
    assert_eq!(s.len(), 4);
    // each connection's own messages arrive in its send order
    let pos = |v: u64| s.iter().position(|&x| x == v).unwrap();
    assert!(pos(11) < pos(12));
    assert!(pos(21) < pos(22));
}

#[test]
fn handler_forwards_data_and_stays_reading() {
    let (sx, mut rx) = unbounded::<Msg>();
    let st = conn_step(
        ConnState::Reading,
        &ConnEvent::Frame(encode_loop_time(5)),
        &sx,
    );
    assert_eq!(st, ConnState::Reading);
    let mut buf = SampleBuffer::new(4);
    assert_eq!(drain_apply(&mut buf, &mut rx), 1);
    assert_eq!(buf.samples(), vec![5]);
}

#[test]
fn handler_continues_after_an_unknown_kind() {
    let (sx, mut rx) = unbounded::<Msg>();
    let st = conn_step(ConnState::Reading, &ConnEvent::Frame(vec![42]), &sx);
    assert_eq!(st, ConnState::Reading);
    let st = conn_step(st, &ConnEvent::Frame(encode_loop_time(3)), &sx);
    assert_eq!(st, ConnState::Reading);
    let mut buf = SampleBuffer::new(4);
    assert_eq!(drain_apply(&mut buf, &mut rx), 1);
    assert_eq!(buf.samples(), vec![3]);
}

#[test]
fn handler_fails_on_a_malformed_payload() {
    let (sx, _rx) = unbounded::<Msg>();
    let st = conn_step(ConnState::Reading, &ConnEvent::Frame(vec![]), &sx);
    assert_eq!(
        st,
        ConnState::Failed(ConnError::Decode(DecodeError::EmptyPayload))
    );
    // a failed connection stays failed, whatever arrives later
    let st = conn_step(st, &ConnEvent::Frame(encode_loop_time(1)), &sx);
    assert_eq!(
        st,
        ConnState::Failed(ConnError::Decode(DecodeError::EmptyPayload))
    );
}

#[test]
fn handler_fails_on_a_malformed_frame() {
    let (sx, _rx) = unbounded::<Msg>();
    let st = conn_step(ConnState::Reading, &ConnEvent::BadFrame, &sx);
    assert_eq!(
        st,
        ConnState::Failed(ConnError::Decode(DecodeError::OversizedFrame))
    );
}

#[test]
fn handler_closes_cleanly_on_eof() {
    let (sx, _rx) = unbounded::<Msg>();
    let st = conn_step(ConnState::Reading, &ConnEvent::Eof, &sx);
    assert_eq!(st, ConnState::Closed);
}

#[test]
fn handler_fails_on_transport_errors() {
    let (sx, _rx) = unbounded::<Msg>();
    let st = conn_step(ConnState::Reading, &ConnEvent::TransportFailure, &sx);
    assert_eq!(st, ConnState::Failed(ConnError::Transport));
}

#[test]
fn handler_fails_with_channel_closed_when_the_consumer_is_gone() {
    let (sx, rx) = unbounded::<Msg>();
    drop(rx);
    let st = conn_step(
        ConnState::Reading,
        &ConnEvent::Frame(encode_loop_time(5)),
        &sx,
    );
    assert_eq!(st, ConnState::Failed(ConnError::ChannelClosed));
}

#[test]
fn a_failure_on_one_connection_leaves_another_untouched() {
    let (sx_a, mut rx) = unbounded::<Msg>();
    let sx_b = sx_a.clone();
    let mut st_a = ConnState::Reading;
    let mut st_b = ConnState::Reading;
    // B sends a valid frame, then A sends a malformed one, then B again
    st_b = conn_step(st_b, &ConnEvent::Frame(encode_loop_time(1)), &sx_b);
    st_a = conn_step(st_a, &ConnEvent::Frame(vec![1, 2, 3]), &sx_a);
    st_b = conn_step(st_b, &ConnEvent::Frame(encode_loop_time(2)), &sx_b);
    assert_eq!(
        st_a,
        ConnState::Failed(ConnError::Decode(DecodeError::WrongLength))
    );
    assert_eq!(st_b, ConnState::Reading);
    let mut buf = SampleBuffer::new(4);
    assert_eq!(drain_apply(&mut buf, &mut rx), 2);
    assert_eq!(buf.samples(), vec![1, 2]);
}

#[test]
fn bytes_to_buffer_end_to_end() {
    // a producer's byte stream carrying three framed messages, one unknown
    let mut stream: Vec<u8> = Vec::new();
    stream.extend_from_slice(&encode_frame(&encode_loop_time(4)));
    stream.extend_from_slice(&encode_frame(&vec![99, 1, 2]));
    stream.extend_from_slice(&encode_frame(&encode_loop_time(6)));

    let (sx, mut rx) = unbounded::<Msg>();
    let mut state = ConnState::Reading;
    loop {
        match take_frame(&mut stream) {
            FrameTake::Frame(p) => state = conn_step(state, &ConnEvent::Frame(p), &sx),
            FrameTake::Malformed => state = conn_step(state, &ConnEvent::BadFrame, &sx),
            FrameTake::NeedMore => break,
        }
    }
    assert_eq!(state, ConnState::Reading);
    let mut buf = SampleBuffer::new(4);
    assert_eq!(drain_apply(&mut buf, &mut rx), 2);
    assert_eq!(buf.samples(), vec![4, 6]);
}

#[test]
fn bind_fails_only_on_a_live_owner() {
    assert_eq!(bind_plan(true, true), Err(BindError::PathInUse));
    assert_eq!(bind_plan(false, true), Err(BindError::PathInUse));
    assert_eq!(bind_plan(true, false), Ok(BindAction::RemoveThenBind));
    assert_eq!(bind_plan(false, false), Ok(BindAction::BindFresh));
}

#[test]
fn accept_spawns_on_success_and_stops_on_failure() {
    assert_eq!(accept_step(AcceptEvent::Accepted), AcceptAction::SpawnHandler);
    assert_eq!(
        accept_step(AcceptEvent::AcceptFailed),
        AcceptAction::StopWithError(AcceptError::Fatal)
    );
}
