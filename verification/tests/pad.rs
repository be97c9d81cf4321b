use ticos_gst::clock::ClockTime;
use ticos_gst::media::Buffer;
use ticos_gst::realtime::audio::{
    audio_caps, calculate_audio_length_ms, AudioCaps, SampleFormat, SampleLayout,
};
use ticos_gst::realtime::pad::{
    is_admissible, is_in_reach, Enqueued, PadAction, PadEvent, Query, QueryAnswer, RealtimeSrcPad,
};
use ticos_gst::realtime::server_event::{ResponseOutputItem, ServerEvent};
use ticos_gst::realtime::task::{pauses, Arrival, TaskTurn, TurnAction, TurnEvent, TurnPhase};

fn ms(n: u64) -> ClockTime {
    ClockTime::from_mseconds(n)
}

/// Base64 of `n` zero bytes, for `n` that three divides.
fn zeros(n: usize) -> String {
    assert_eq!(n % 3, 0);
    "A".repeat(n / 3 * 4)
}

fn buffer(start: u64, lasts: u64) -> Buffer {
    Buffer {
        pts: Some(ms(start)),
        duration: Some(ms(lasts)),
        data: vec![1, 2],
    }
}

fn created(id: &str) -> ServerEvent {
    ServerEvent::ResponseCreated {
        output: vec![ResponseOutputItem::ItemId(id.to_string()), ResponseOutputItem::Item],
    }
}

fn delta(id: &str, audio: &str) -> ServerEvent {
    ServerEvent::ResponseAudioDelta {
        item_id: id.to_string(),
        delta: audio.to_string(),
    }
}

#[test]
fn audio_lengths() {
    assert_eq!(calculate_audio_length_ms(0), 0);
    assert_eq!(calculate_audio_length_ms(47), 0);
    assert_eq!(calculate_audio_length_ms(48), 1);
    assert_eq!(calculate_audio_length_ms(9600), 200);
    assert_eq!(calculate_audio_length_ms(48_000), 1000);
}

#[test]
fn base64_audio_is_decoded() {
    let mut pad = RealtimeSrcPad::new(1);
    assert_eq!(pad.enqueue_audio(Some(ms(5)), "AAECAw=="), Enqueued::Queued);
    assert_eq!(pad.state.buffers.len(), 1);
    assert_eq!(pad.state.buffers[0].data, vec![0, 1, 2, 3]);
    assert_eq!(pad.state.buffers[0].pts, Some(ms(5)));
    assert_eq!(pad.state.buffers[0].duration, Some(ms(0)));
}

#[test]
fn audio_that_is_not_base64_is_dropped() {
    let mut pad = RealtimeSrcPad::new(1);
    assert_eq!(pad.enqueue_audio(Some(ms(5)), "AAECAw"), Enqueued::NotBase64);
    assert_eq!(pad.enqueue_audio(Some(ms(5)), "A*=="), Enqueued::NotBase64);
    assert_eq!(pad.enqueue_audio(None, "AAECAw=="), Enqueued::NoClock);
    assert_eq!(pad.state.buffers.len(), 0);
    assert_eq!(pad.state.last_buffer_rtime, None);
}

#[test]
fn audio_beyond_the_end_of_time() {
    let mut pad = RealtimeSrcPad::new(1);
    let late = ClockTime { ns: u64::MAX - 1_000_000 };
    assert_eq!(pad.enqueue_audio(Some(late), &zeros(96)), Enqueued::OutOfRange);
    assert_eq!(pad.state.buffers.len(), 0);
    assert_eq!(pad.enqueue_audio(Some(late), &zeros(48)), Enqueued::Queued);
    assert_eq!(pad.state.last_buffer_rtime, Some(ClockTime { ns: u64::MAX }));
}

#[test]
fn long_audio_is_cut_without_gaps() {
    let mut pad = RealtimeSrcPad::new(1);
    assert_eq!(pad.enqueue_audio(Some(ms(1000)), &zeros(24_000)), Enqueued::Queued);
    let cut: Vec<(u64, u64, usize)> = pad
        .state
        .buffers
        .iter()
        .map(|b| (b.pts.unwrap().mseconds(), b.duration.unwrap().mseconds(), b.data.len()))
        .collect();
    assert_eq!(cut, vec![(1000, 200, 9600), (1200, 200, 9600), (1400, 100, 4800)]);
    assert_eq!(pad.state.last_buffer_rtime, Some(ms(1500)));
    // More audio goes behind what waits, and never into the past.
    assert_eq!(pad.enqueue_audio(Some(ms(1100)), &zeros(48)), Enqueued::Queued);
    assert_eq!(pad.state.buffers[3].pts, Some(ms(1500)));
    assert_eq!(pad.enqueue_audio(Some(ms(9000)), &zeros(48)), Enqueued::Queued);
    assert_eq!(pad.state.buffers[4].pts, Some(ms(9000)));
}

#[test]
fn events_precede_buffers() {
    let pad = RealtimeSrcPad::new(77);
    assert!(pad.dequeue_events(None, "src", false, false, false).is_none());
    let events = pad.dequeue_events(Some(ms(0)), "src", false, false, false).unwrap();
    assert_eq!(events.len(), 3);
    match &events[0] {
        PadEvent::StreamStart { stream_id, seqnum } => {
            assert_eq!(stream_id, "audio_src");
            assert_eq!(*seqnum, 77);
        }
        other => panic!("{:?}", other),
    }
    match &events[1] {
        PadEvent::Caps { caps, seqnum } => {
            assert_eq!(caps.format, SampleFormat::S16le);
            assert_eq!(caps.layout, SampleLayout::Interleaved);
            assert_eq!((caps.rate, caps.channels, *seqnum), (24000, 1, 77));
        }
        other => panic!("{:?}", other),
    }
    assert!(matches!(events[2], PadEvent::Segment { seqnum: 77, .. }));
    let events = pad.dequeue_events(Some(ms(0)), "src", true, true, false).unwrap();
    assert_eq!(events.len(), 1);
    assert!(matches!(events[0], PadEvent::Segment { .. }));
    assert_eq!(pad.dequeue_events(Some(ms(0)), "src", true, true, true).unwrap().len(), 0);
}

#[test]
fn due_buffers_are_taken() {
    let mut pad = RealtimeSrcPad::new(1);
    pad.state.push_buffer(buffer(1000, 100));
    pad.state.push_buffer(buffer(1599, 100));
    pad.state.push_buffer(buffer(1600, 100));
    pad.state.push_buffer(buffer(0, 100));
    // Due is what starts less than 100 + 500 ms after now.
    let turn = pad.dequeue(ms(1000), 500);
    assert!(!turn.send_eos);
    assert_eq!(turn.items.len(), 2);
    assert_eq!(turn.items[1].pts, Some(ms(1599)));
    assert_eq!(turn.last_position, Some(ms(1699)));
    assert_eq!(pad.state.buffers.len(), 2);
}

#[test]
fn late_buffers_are_shortened() {
    let mut pad = RealtimeSrcPad::new(1);
    assert!(pad.finish_dequeue(true, Some(ms(1050)), ms(0), 500));
    assert_eq!(pad.state.out_segment.position, Some(ms(1050)));
    pad.state.push_buffer(buffer(1000, 80));
    pad.state.push_buffer(buffer(1000, 20));
    pad.state.push_buffer(buffer(1060, 20));
    let turn = pad.dequeue(ms(1000), 500);
    assert_eq!(turn.items[0].pts, Some(ms(1050)));
    assert_eq!(turn.items[0].duration, Some(ms(30)));
    assert_eq!(turn.items[1].pts, Some(ms(1050)));
    assert_eq!(turn.items[1].duration, Some(ms(0)));
    assert_eq!(turn.items[2].pts, Some(ms(1060)));
    assert_eq!(turn.items[2].duration, Some(ms(20)));
    assert_eq!(turn.last_position, Some(ms(1080)));
}

#[test]
fn position_catches_up() {
    let mut pad = RealtimeSrcPad::new(1);
    // 400 ms behind, and 100 more make 500: not too far.
    assert!(pad.finish_dequeue(true, Some(ms(600)), ms(1000), 500));
    assert_eq!(pad.state.out_segment.position, Some(ms(600)));
    // One more is too far: the position moves 100 ms past the clock.
    assert!(pad.finish_dequeue(true, Some(ms(599)), ms(1000), 500));
    assert_eq!(pad.state.out_segment.position, Some(ms(1100)));
    // Ahead of the clock nothing moves.
    assert!(pad.finish_dequeue(true, Some(ms(2000)), ms(1000), 500));
    assert_eq!(pad.state.out_segment.position, Some(ms(2000)));
    // A refused buffer, or no position, leaves it alone.
    assert!(!pad.finish_dequeue(false, Some(ms(3000)), ms(1000), 500));
    assert!(pad.finish_dequeue(true, None, ms(1000), 500));
    assert_eq!(pad.state.out_segment.position, Some(ms(2000)));
}

#[test]
fn end_of_stream_waits_for_the_queue() {
    let mut pad = RealtimeSrcPad::new(9);
    pad.state.send_eos = true;
    pad.state.push_buffer(buffer(0, 10));
    assert!(!pad.dequeue(ms(0), 500).send_eos);
    let turn = pad.dequeue(ms(0), 500);
    assert!(turn.send_eos);
    assert_eq!(turn.seqnum, 9);
    assert_eq!(turn.items.len(), 0);
}

#[test]
fn buffers_without_times() {
    let mut pad = RealtimeSrcPad::new(1);
    pad.state.push_buffer(buffer(10, 5));
    assert_eq!(pad.state.last_buffer_rtime, Some(ms(15)));
    pad.state.push_buffer(Buffer { pts: None, duration: None, data: vec![] });
    assert_eq!(pad.state.last_buffer_rtime, None);
    pad.state.reset_buffers();
    assert_eq!(pad.state.buffers.len(), 0);
}

#[test]
fn audio_counts_for_its_response_only() {
    let mut pad = RealtimeSrcPad::new(1);
    let now = Some(ms(10));
    assert!(matches!(pad.handle_event(delta("r1", "AAAA"), now, &None), PadAction::Done));
    assert_eq!(pad.state.buffers.len(), 0);
    assert!(matches!(pad.handle_event(created("r1"), now, &None), PadAction::Done));
    assert_eq!(pad.state.current_item_id.as_deref(), Some("r1"));
    pad.handle_event(delta("r1", "AAAA"), now, &None);
    assert_eq!(pad.state.buffers.len(), 1);
    pad.handle_event(delta("r2", "AAAA"), now, &None);
    pad.handle_event(delta("r1", ""), now, &None);
    assert_eq!(pad.state.buffers.len(), 1);
    pad.handle_event(ServerEvent::ResponseCreated { output: vec![] }, now, &None);
    assert_eq!(pad.state.current_item_id, None);
}

#[test]
fn silence_drops_the_response() {
    let mut pad = RealtimeSrcPad::new(1);
    let now = Some(ms(10));
    pad.handle_event(created("r1"), now, &None);
    pad.handle_event(delta("r1", "AAAA"), now, &None);
    let action = pad.handle_event(ServerEvent::InputAudioBufferSpeechStopped, now, &None);
    assert!(matches!(action, PadAction::Done));
    assert_eq!(pad.state.buffers.len(), 0);
    assert_eq!(pad.state.last_buffer_rtime, None);
    pad.handle_event(delta("r1", "AAAA"), now, &None);
    assert_eq!(pad.state.buffers.len(), 0);
}

#[test]
fn committed_audio_is_forgotten() {
    let mut pad = RealtimeSrcPad::new(1);
    pad.state.push_buffer(buffer(0, 10));
    let action = pad.handle_event(ServerEvent::InputAudioBufferCommited, None, &None);
    assert!(matches!(action, PadAction::ForgetHeardAudio));
    assert_eq!(pad.state.buffers.len(), 0);
}

#[test]
fn executor_is_connected_on_demand() {
    let mut pad = RealtimeSrcPad::new(1);
    let addr = Some("host:1".to_string());
    let event = ServerEvent::ResponseOutputItemAdded;
    assert!(matches!(pad.handle_event(event, None, &None), PadAction::Done));
    match pad.handle_event(ServerEvent::ResponseOutputItemAdded, None, &addr) {
        PadAction::ConnectExecutor(to) => assert_eq!(to, "host:1"),
        other => panic!("{:?}", other),
    }
    pad.state.executor.connection_attempted("host:1", Ok(())).unwrap();
    let action = pad.handle_event(ServerEvent::ResponseOutputItemAdded, None, &addr);
    assert!(matches!(action, PadAction::Done));
    assert_eq!(pad.execute_failed(&addr).unwrap(), "host:1");
    assert!(!pad.state.executor.is_connected());
    assert_eq!(pad.execute_failed(&None).unwrap_err().text, "Addr is not set");
}

#[test]
fn function_calls_are_handed_on() {
    let mut pad = RealtimeSrcPad::new(1);
    let event = ServerEvent::ResponseFunctionCallArgumentsDone {
        name: "move".to_string(),
        arguments: "{\"to\": \"left\"} ok".to_string(),
    };
    assert!(is_admissible(&event));
    match pad.handle_event(event, None, &None) {
        PadAction::Execute(call) => {
            assert_eq!(call.name, "move");
            assert_eq!(call.arguments["to"].as_str(), Some("left"));
        }
        other => panic!("{:?}", other),
    }
    let event = ServerEvent::ResponseFunctionCallArgumentsDone {
        name: "move".to_string(),
        arguments: "nothing".to_string(),
    };
    assert!(matches!(pad.handle_event(event, None, &None), PadAction::Done));
}

#[test]
fn events_that_do_not_matter() {
    let mut pad = RealtimeSrcPad::new(1);
    pad.state.push_buffer(buffer(0, 10));
    assert!(matches!(pad.handle_event(ServerEvent::Other, None, &None), PadAction::Done));
    assert!(matches!(pad.handle_event(ServerEvent::SessionUpdated, None, &None), PadAction::Done));
    assert_eq!(pad.state.buffers.len(), 1);
}

#[test]
fn audio_event_beyond_the_end_of_time() {
    let mut pad = RealtimeSrcPad::new(1);
    let late = Some(ClockTime { ns: u64::MAX });
    pad.handle_event(created("r1"), late, &None);
    let action = pad.handle_event(delta("r1", &zeros(48)), late, &None);
    assert!(matches!(action, PadAction::AudioOutOfRange));
}

#[test]
fn inadmissible_events() {
    assert!(!is_admissible(&ServerEvent::ResponseCreated { output: vec![ResponseOutputItem::Item] }));
    assert!(is_admissible(&ServerEvent::ResponseCreated { output: vec![] }));
    assert!(!is_admissible(&ServerEvent::ResponseFunctionCallArgumentsDone {
        name: String::new(),
        arguments: "} {".to_string(),
    }));
    assert!(is_admissible(&ServerEvent::Other));
}

#[test]
fn new_segment_starts_over() {
    let mut pad = RealtimeSrcPad::new(1);
    pad.finish_dequeue(true, Some(ms(70)), ms(0), 500);
    pad.state.start_segment(Some(ms(3)), 8);
    assert_eq!(pad.state.out_segment.time, Some(ms(3)));
    assert_eq!(pad.state.out_segment.position, Some(ms(0)));
    assert_eq!(pad.state.seqnum, 8);
}

#[test]
fn queries() {
    let mut pad = RealtimeSrcPad::new(1);
    pad.finish_dequeue(true, Some(ms(70)), ms(0), 500);
    assert_eq!(pad.src_query(Query::Position { in_time: true }), QueryAnswer::Position(Some(ms(70))));
    assert_eq!(pad.src_query(Query::Position { in_time: false }), QueryAnswer::Refused);
    assert_eq!(pad.src_query(Query::Other), QueryAnswer::Default);
}

#[test]
fn tone_is_due_at_once() {
    let mut pad = RealtimeSrcPad::new(1);
    pad.greet(vec![5, 6]);
    assert_eq!(pad.state.last_buffer_rtime, Some(ms(100)));
    let turn = pad.dequeue(ms(0), 500);
    assert_eq!(turn.items.len(), 1);
    assert_eq!(turn.items[0].data, vec![5, 6]);
    assert_eq!(turn.items[0].pts, Some(ms(0)));
    assert_eq!(turn.items[0].duration, Some(ms(100)));
}

#[test]
fn audio_goes_through_unchanged() {
    let mut pad = RealtimeSrcPad::new(1);
    pad.state.push_buffer(Buffer { pts: Some(ms(0)), duration: Some(ms(100)), data: vec![9, 8] });
    assert_eq!(pad.enqueue_audio(Some(ms(0)), "AAECAw=="), Enqueued::Queued);
    assert_eq!(pad.enqueue_audio(Some(ms(0)), &zeros(30_000)), Enqueued::Queued);
    let turn = pad.dequeue(ms(0), 100);
    let mut bytes: Vec<u8> = turn.items.iter().flat_map(|b| b.data.clone()).collect();
    assert!(bytes.len() < 30_006);
    bytes.extend(pad.state.buffers.iter().flat_map(|b| b.data.clone()));
    let mut expected = vec![9, 8, 0, 1, 2, 3];
    expected.resize(30_006, 0);
    assert_eq!(bytes, expected);
}

#[test]
fn positions_that_cannot_be_told() {
    let end = ClockTime { ns: u64::MAX };
    assert!(is_in_reach(ms(0), ms(5), 500));
    assert!(is_in_reach(end, ms(5), 500));
    assert!(is_in_reach(end, end, 500));
    assert!(!is_in_reach(end, end, 99));
    assert!(!is_in_reach(ms(0), end, 500));
}

#[test]
fn sessions_have_one_kind_of_audio() {
    assert_eq!(
        audio_caps(),
        AudioCaps {
            format: SampleFormat::S16le,
            rate: 24000,
            channels: 1,
            layout: SampleLayout::Interleaved,
        }
    );
}

#[test]
fn task_pauses() {
    assert!(!pauses(false, true));
    assert!(pauses(false, false));
    assert!(pauses(true, true));
    assert!(pauses(true, false));
}

/// The turn from what came on: what was taken in, how often the output was
/// driven, and whether the task paused.
fn run_turn(arrival: Arrival, worked: bool) -> (bool, u32, bool) {
    let mut turn = TaskTurn::begin();
    let mut handled = false;
    let mut driven = 0;
    let mut event = TurnEvent::Came(arrival);
    loop {
        event = match turn.step(event) {
            TurnAction::Handle(event) => {
                assert_eq!(driven, 0);
                assert!(matches!(event, ServerEvent::SessionUpdated));
                handled = true;
                TurnEvent::Handled
            }
            TurnAction::Dequeue => {
                driven += 1;
                TurnEvent::Dequeued { worked }
            }
            TurnAction::Pause => return (handled, driven, true),
            TurnAction::Finish => return (handled, driven, false),
            TurnAction::Ignore => panic!("nothing to ignore"),
        };
    }
}

#[test]
fn output_is_driven_once_in_a_turn() {
    assert_eq!(run_turn(Arrival::Nothing, true), (false, 1, false));
    assert_eq!(run_turn(Arrival::Nothing, false), (false, 1, true));
    assert_eq!(run_turn(Arrival::Unreadable, true), (false, 1, false));
    assert_eq!(run_turn(Arrival::Closed, true), (false, 1, true));
    assert_eq!(run_turn(Arrival::Event(ServerEvent::SessionUpdated), true), (true, 1, false));
    assert_eq!(run_turn(Arrival::Event(ServerEvent::SessionUpdated), false), (true, 1, true));
}

#[test]
fn events_out_of_turn_are_ignored() {
    let mut turn = TaskTurn::begin();
    assert!(matches!(turn.step(TurnEvent::Handled), TurnAction::Ignore));
    assert_eq!(turn.phase, TurnPhase::Waiting);
    turn.step(TurnEvent::Came(Arrival::Nothing));
    turn.step(TurnEvent::Dequeued { worked: true });
    assert_eq!(turn.phase, TurnPhase::Over);
    assert!(matches!(turn.step(TurnEvent::Dequeued { worked: true }), TurnAction::Ignore));
}
