//! Server session decisions, client channel decisions, and frames.

use kaloron::client::{
    classify_routed, CallAdmission, ChannelLifecycle, EofOutcome, HxClientChannelState, ReceiverAction,
    TerminalCheck,
};
use kaloron::framing::{FrameError, InboundFrames, OutboundFrame, OutboundQueue, StreamedFrames};
use kaloron::message::{HxClientBoundHeader, HxServerBoundHeader};
use kaloron::server::{
    HxReadStageError, HxServerReadStage, HxServerResponseCore, HxServerSession, HxSessionAction,
    HxSessionEvent, HxSessionPhase,
};
use kaloron::RpcError;

fn request(call_id: u32, method_id: u32) -> HxSessionEvent {
    HxSessionEvent::Frame(HxServerBoundHeader::Request { call_id, method_id })
}

#[test]
fn server_session_dispatches_and_closes_cleanly() {
    let mut s = HxServerSession::new();
    assert_eq!(s.step(request(1, 7)), HxSessionAction::Dispatch { call_id: 1, method_id: 7 });
    assert_eq!(s.step(HxSessionEvent::NoneReady), HxSessionAction::ReadNext);
    assert_eq!(s.step(request(2, 8)), HxSessionAction::Dispatch { call_id: 2, method_id: 8 });
    assert_eq!(s.respond(1), None);
    assert_eq!(s.step(HxSessionEvent::CallFinished(Some(true))), HxSessionAction::PollCalls);
    assert_eq!(s.step(HxSessionEvent::NoneReady), HxSessionAction::ReadNext);
    assert_eq!(
        s.step(HxSessionEvent::Frame(HxServerBoundHeader::Complete {})),
        HxSessionAction::DrainCalls
    );
    assert_eq!(s.current_phase(), HxSessionPhase::Draining);
    assert_eq!(s.respond_fault(2, RpcError::UnknownMethod(8)), RpcError::UnknownMethod(8));
    assert_eq!(s.step(HxSessionEvent::CallFinished(None)), HxSessionAction::DrainCalls);
    assert_eq!(
        s.step(HxSessionEvent::AllFinished),
        HxSessionAction::Close(HxClientBoundHeader::Complete {})
    );
    assert_eq!(s.step(request(3, 1)), HxSessionAction::Ignore);
}

#[test]
fn server_session_rejects_reused_call_ids() {
    let mut s = HxServerSession::new();
    assert_eq!(s.step(request(5, 1)), HxSessionAction::Dispatch { call_id: 5, method_id: 1 });
    assert_eq!(
        s.step(request(5, 2)),
        HxSessionAction::Reject { call_id: 5, error: RpcError::DuplicateCallId(5) }
    );
    // The first call's answer is replaced by the duplicate error as well.
    assert_eq!(s.respond(5), Some(RpcError::DuplicateCallId(5)));
    assert_eq!(s.step(request(5, 3)), HxSessionAction::Dispatch { call_id: 5, method_id: 3 });
    assert_eq!(
        s.respond_fault(5, RpcError::UnknownMethod(3)),
        RpcError::UnknownMethod(3)
    );
}

#[test]
fn server_session_stops_reading_after_a_failed_call() {
    let mut s = HxServerSession::new();
    s.step(request(1, 1));
    assert_eq!(s.step(HxSessionEvent::CallFinished(Some(false))), HxSessionAction::PollCalls);
    assert_eq!(s.step(HxSessionEvent::NoneReady), HxSessionAction::DrainCalls);
    assert_eq!(
        s.step(HxSessionEvent::AllFinished),
        HxSessionAction::Close(HxClientBoundHeader::ChannelError {})
    );
}

#[test]
fn server_session_aborts_on_unexpected_end() {
    let mut s = HxServerSession::new();
    assert_eq!(s.step(HxSessionEvent::StreamEnded), HxSessionAction::Abort);
    assert_eq!(HxServerSession::abort_message(), "unexpected end of frames without complete");
    assert_eq!(s.current_phase(), HxSessionPhase::Finished);
}

#[test]
fn response_core_tracks_poisoned_ids() {
    let mut core = HxServerResponseCore::new();
    assert!(!core.register(9));
    assert!(core.register(9));
    assert!(core.contains(9));
    assert!(core.complete(9));
    assert!(!core.contains(9));
    assert!(!core.register(9));
    assert!(!core.complete(9));
}

#[test]
fn read_stage_transitions() {
    let mut stage = HxServerReadStage::Frame;
    assert_eq!(stage.begin_read(), Ok(()));
    stage.finish_read(false);
    assert_eq!(stage, HxServerReadStage::Fault);
    assert_eq!(stage.begin_read(), Err(HxReadStageError::ReadOnFailedFrame));
    assert_eq!(stage.read_fault(), Ok(()));
    assert_eq!(stage.begin_read(), Err(HxReadStageError::ReadOnConsumedFrame));
    assert_eq!(stage.read_fault(), Err(HxReadStageError::FaultOnConsumedFrame));
    let mut decoded = HxServerReadStage::Frame;
    decoded.finish_read(true);
    assert_eq!(decoded, HxServerReadStage::Done);
}

#[test]
fn client_admits_calls_only_while_open() {
    let mut state: HxClientChannelState<&'static str> = HxClientChannelState::new();
    assert!(matches!(state.begin_call("a"), CallAdmission::Admitted(0)));
    assert!(matches!(state.begin_call("b"), CallAdmission::Admitted(1)));
    let failed = state.abandon_call(0, "value too large".to_string());
    assert_eq!(failed, RpcError::EncodeError("value too large".to_string()));
    assert_eq!(failed.message(), "encode error: value too large");
    assert!(matches!(state.begin_call("c"), CallAdmission::Admitted(0)));
    assert_eq!(state.begin_complete(), Ok(true));
    match state.begin_call("d") {
        CallAdmission::Refused(RpcError::TransportError(m)) => {
            assert_eq!(m, "channel is shutting down or already closed")
        }
        _ => panic!("a completing channel refuses calls"),
    }
    assert_eq!(state.begin_complete(), Ok(false));
}

#[test]
fn client_routes_responses_to_their_waiters() {
    let mut state: HxClientChannelState<&'static str> = HxClientChannelState::new();
    let _ = state.begin_call("first");
    let _ = state.begin_call("second");
    match state.on_header(HxClientBoundHeader::ResponseFailure { call_id: 1 }) {
        ReceiverAction::Deliver(w) => assert_eq!(w, "second"),
        _ => panic!("response should be delivered"),
    }
    match state.on_header(HxClientBoundHeader::ResponseSuccess { call_id: 9 }) {
        ReceiverAction::Stop { message, failed } => {
            assert_eq!(message, "received response for unknown call id 9");
            let failed = failed.expect("the channel was open");
            assert_eq!(failed.len(), 1);
            assert_eq!(failed.get(&0), Some(&"first"));
        }
        _ => panic!("an unknown call id breaks the channel"),
    }
    match state.terminal_state() {
        TerminalCheck::Broken(m) => assert_eq!(m, "received response for unknown call id 9"),
        _ => panic!("the channel is broken"),
    }
    match state.begin_call("third") {
        CallAdmission::Broken(m) => assert_eq!(m, "received response for unknown call id 9"),
        _ => panic!("a broken channel fails calls"),
    }
    assert_eq!(
        state.begin_complete(),
        Err("received response for unknown call id 9".to_string())
    );
}

#[test]
fn client_graceful_shutdown() {
    let mut state: HxClientChannelState<u8> = HxClientChannelState::new();
    assert!(matches!(state.terminal_state(), TerminalCheck::Pending));
    match state.on_header(HxClientBoundHeader::Complete {}) {
        ReceiverAction::Continue { notify } => assert!(notify),
        _ => panic!("completion is acknowledged"),
    }
    assert!(matches!(state.finish_eof(), EofOutcome::Graceful));
    assert!(matches!(state.terminal_state(), TerminalCheck::Closed));
    assert!(!state.acknowledge_shutdown());
    assert!(state.break_channel("late".to_string()).is_none());
}

#[test]
fn client_eof_breaks_pending_calls() {
    let mut state: HxClientChannelState<u8> = HxClientChannelState::new();
    let _ = state.begin_call(4);
    match state.finish_eof() {
        EofOutcome::Broken { message, failed } => {
            assert_eq!(message, "channel closed unexpectedly");
            assert_eq!(failed.get(&0), Some(&4));
        }
        EofOutcome::Graceful => panic!("nothing acknowledged the shutdown"),
    }
    assert_eq!(state.dropped_waiter_message(0), "channel closed unexpectedly");

    let mut acked: HxClientChannelState<u8> = HxClientChannelState::new();
    let _ = acked.begin_call(1);
    acked.acknowledge_shutdown();
    match acked.finish_eof() {
        EofOutcome::Broken { message, .. } => {
            assert_eq!(message, "channel closed before all pending calls were answered")
        }
        EofOutcome::Graceful => panic!("a call is still pending"),
    }

    let fresh: HxClientChannelState<u8> = HxClientChannelState::new();
    assert_eq!(fresh.dropped_waiter_message(12), "response waiter for call id 12 was dropped");
}

#[test]
fn client_remote_channel_error_breaks_the_channel() {
    let mut state: HxClientChannelState<u8> = HxClientChannelState::new();
    match state.on_header(HxClientBoundHeader::ChannelError {}) {
        ReceiverAction::Stop { message, failed } => {
            assert_eq!(message, "remote channel error");
            assert!(failed.expect("was open").is_empty());
        }
        _ => panic!("a channel error stops the receiver"),
    }
    let _ = ChannelLifecycle::Broken;
}

#[test]
fn test_outbound_inner_flushes_full_chunks_and_trims_final_chunk() {
    let payload = vec![b'x'; 1024 * 2 + 17];
    let mut writer = OutboundFrame::new();
    assert_eq!(writer.write(&payload), Ok(payload.len()));
    let chunks = writer.finish();

    assert_eq!(chunks[0].as_slice(), (payload.len() as u32).to_le_bytes().as_slice());
    assert_eq!(chunks[1].len(), 1024);
    assert!(chunks[1].iter().all(|byte| *byte == b'x'));
    assert_eq!(chunks[2].len(), 1024);
    assert!(chunks[2].iter().all(|byte| *byte == b'x'));
    assert_eq!(chunks[3].len(), 17);
    assert!(chunks[3].iter().all(|byte| *byte == b'x'));
    assert_eq!(chunks.len(), 4);
}

#[test]
fn frame_emits_length_prefix_before_payload() {
    let mut writer = OutboundFrame::new();
    writer.write(b"u8:1").expect("header fits");
    writer.write(b"u8:2").expect("data fits");
    let chunks = writer.finish();
    assert_eq!(chunks.len(), 2);
    assert_eq!(chunks[0].as_slice(), 8u32.to_le_bytes().as_slice());
    assert_eq!(chunks[1].as_slice(), b"u8:1u8:2");
}

#[test]
fn frames_survive_any_chunking() {
    let payloads: Vec<Vec<u8>> = vec![b"hello".to_vec(), vec![], vec![7u8; 3000]];
    let mut wire = Vec::new();
    for p in &payloads {
        let mut w = OutboundFrame::new();
        w.write(p).expect("fits");
        for chunk in w.finish() {
            wire.extend_from_slice(&chunk);
        }
    }
    for step in [1usize, 3, 4, 5, 1000, wire.len()] {
        let mut inbound = InboundFrames::new();
        let mut got = Vec::new();
        for chunk in wire.chunks(step) {
            inbound.push_chunk(chunk);
            while let Some(frame) = inbound.next_frame() {
                got.push(frame);
            }
        }
        assert_eq!(got, payloads);
        assert_eq!(inbound.finish(), Ok(()));
    }
}

#[test]
fn stream_ending_inside_a_frame_is_an_error() {
    let mut inbound = InboundFrames::new();
    inbound.push_chunk(&[3, 0, 0, 0, b'a']);
    assert_eq!(inbound.next_frame(), None);
    assert_eq!(inbound.finish(), Err(FrameError::UnexpectedEnd));
    inbound.push_chunk(b"bc");
    assert_eq!(inbound.next_frame(), Some(b"abc".to_vec()));
    assert_eq!(inbound.finish(), Ok(()));
}

#[test]
fn routed_frames_are_classified() {
    assert_eq!(classify_routed(HxClientBoundHeader::ResponseSuccess { call_id: 1 }), Ok(true));
    assert_eq!(classify_routed(HxClientBoundHeader::ResponseFailure { call_id: 1 }), Ok(false));
    assert_eq!(
        classify_routed(HxClientBoundHeader::ChannelError {}),
        Err("unexpected routed channel error frame".to_string())
    );
    assert_eq!(
        classify_routed(HxClientBoundHeader::Complete {}),
        Err("unexpected routed shutdown acknowledgement frame".to_string())
    );
}

fn assist_byte_item(ch: u8) -> bytes::Bytes {
    bytes::Bytes::from(vec![ch])
}

#[test]
fn test_builder_sealed_frames_poll_in_payload_order() {
    let mut ring = OutboundQueue::new();
    let f = ring.begin_frame();
    ring.append(f, assist_byte_item(b'a'));
    ring.append(f, assist_byte_item(b'b'));
    ring.seal(f);

    let f = ring.begin_frame();
    ring.append(f, assist_byte_item(b'c'));
    ring.seal(f);

    assert_eq!(ring.poll(), Some(assist_byte_item(b'a')));
    assert_eq!(ring.poll(), Some(assist_byte_item(b'b')));
    assert_eq!(ring.poll(), Some(assist_byte_item(b'c')));
    assert_eq!(ring.poll(), None);
}

#[test]
fn test_builder_drop_cleans_up_unsealed_frame_and_new_builder_can_continue() {
    let mut ring = OutboundQueue::new();
    let f = ring.begin_frame();
    ring.append(f, assist_byte_item(b'a'));
    ring.seal(f);

    let f = ring.begin_frame();
    ring.append(f, assist_byte_item(b'b'));
    ring.discard(f);

    assert_eq!(ring.poll(), Some(assist_byte_item(b'a')));
    assert_eq!(ring.poll(), None);

    let f = ring.begin_frame();
    ring.append(f, assist_byte_item(b'c'));
    ring.seal(f);

    assert_eq!(ring.poll(), Some(assist_byte_item(b'c')));
    assert_eq!(ring.poll(), None);
}

#[test]
fn test_builder_append_frame_can_be_called_twice_to_append() {
    let mut ring = OutboundQueue::new();
    let f = ring.begin_frame();
    ring.append(f, assist_byte_item(b'a'));
    ring.append(f, assist_byte_item(b'b'));
    ring.seal(f);

    assert_eq!(ring.poll(), Some(assist_byte_item(b'a')));
    assert_eq!(ring.poll(), Some(assist_byte_item(b'b')));
    assert_eq!(ring.poll(), None);
}

#[test]
fn test_builder_empty_seal_and_drop_are_noops() {
    let mut ring: OutboundQueue<bytes::Bytes> = OutboundQueue::new();
    let f = ring.begin_frame();
    ring.seal(f);
    assert_eq!(ring.poll(), None);
    let f = ring.begin_frame();
    ring.discard(f);
    assert_eq!(ring.poll(), None);
}

#[test]
fn frames_written_in_chunks_queue_in_order() {
    let mut ring = OutboundQueue::new();
    for payload in [b"first".to_vec(), vec![9u8; 1500]] {
        let mut frame = OutboundFrame::new();
        frame.write(&payload).expect("fits");
        let f = ring.begin_frame();
        for chunk in frame.finish() {
            ring.append(f, chunk);
        }
        ring.seal(f);
    }
    let mut wire = Vec::new();
    while let Some(chunk) = ring.poll() {
        wire.extend_from_slice(&chunk);
    }
    let mut inbound = InboundFrames::new();
    inbound.push_chunk(&wire);
    assert_eq!(inbound.next_frame(), Some(b"first".to_vec()));
    assert_eq!(inbound.next_frame(), Some(vec![9u8; 1500]));
    assert_eq!(inbound.next_frame(), None);
}

#[test]
fn streamed_frames_start_at_the_bound_and_finish_past_the_rest() {
    let mut frames = StreamedFrames::new(4);
    // Length 10, then two payload bytes: below the bound, the frame waits.
    frames.push_chunk(&[10, 0, 0, 0, 1, 2]);
    assert_eq!(frames.start_frame(), None);
    frames.push_chunk(&[3, 4, 5]);
    assert_eq!(frames.start_frame(), Some((10, vec![1, 2, 3, 4, 5])));
    // Not all of the rest is in yet.
    frames.push_chunk(&[6, 7]);
    assert_eq!(frames.finish_frame(), None);
    assert_eq!(frames.start_frame(), None);
    // The rest is in, but nothing after it: the frame still waits.
    frames.push_chunk(&[8, 9, 10]);
    assert_eq!(frames.finish_frame(), None);
    // The next frame's first bytes arrive: the frame finishes.
    frames.push_chunk(&[2, 0]);
    assert_eq!(frames.finish_frame(), Some(vec![6, 7, 8, 9, 10]));
    assert_eq!(frames.finish(), Err(FrameError::UnexpectedEnd));
    frames.push_chunk(&[0, 0, 11, 12]);
    // A frame shorter than the bound starts once all of it is in, and
    // finishes at once.
    assert_eq!(frames.start_frame(), Some((2, vec![11, 12])));
    assert_eq!(frames.finish_frame(), Some(vec![]));
    assert_eq!(frames.finish(), Ok(()));
}

#[test]
fn streamed_frame_ending_with_the_stream_is_cut_short() {
    let mut frames = StreamedFrames::new(2);
    frames.push_chunk(&[4, 0, 0, 0, 1, 2]);
    assert_eq!(frames.start_frame(), Some((4, vec![1, 2])));
    frames.push_chunk(&[3, 4]);
    assert_eq!(frames.finish_frame(), None);
    assert_eq!(frames.finish(), Err(FrameError::UnexpectedEnd));
}

#[test]
fn streamed_empty_frame_waits_for_a_byte_after_its_prefix() {
    let mut frames = StreamedFrames::new(1024);
    frames.push_chunk(&[0, 0, 0, 0]);
    assert_eq!(frames.start_frame(), None);
    frames.push_chunk(&[1, 0, 0, 0, 7]);
    assert_eq!(frames.start_frame(), Some((0, vec![])));
    assert_eq!(frames.finish_frame(), Some(vec![]));
    assert_eq!(frames.start_frame(), Some((1, vec![7])));
    assert_eq!(frames.finish_frame(), Some(vec![]));
    assert_eq!(frames.finish(), Ok(()));
}

#[test]
fn frames_built_side_by_side_queue_whole_in_seal_order() {
    let mut ring = OutboundQueue::new();
    let first = ring.begin_frame();
    let second = ring.begin_frame();
    assert_ne!(first, second);
    ring.append(first, assist_byte_item(b'a'));
    ring.append(second, assist_byte_item(b'x'));
    ring.append(first, assist_byte_item(b'b'));
    ring.append(second, assist_byte_item(b'y'));
    ring.seal(second);
    ring.seal(first);
    let polled: Vec<_> = std::iter::from_fn(|| ring.poll()).collect();
    assert_eq!(
        polled,
        vec![
            assist_byte_item(b'x'),
            assist_byte_item(b'y'),
            assist_byte_item(b'a'),
            assist_byte_item(b'b')
        ]
    );
    // A freed identifier is handed out again.
    assert_eq!(ring.begin_frame(), first);
}
