use ticos_gst::clock::ClockTime;
use ticos_gst::media::{Buffer, FlowError};
use ticos_gst::object_tracker::{ObjectTracker, State, TensorBBox};
use ticos_gst::tracks::{has_tracks, is_track_list};
use ticos_gst::visual_voice::VisualVoice;

fn ms(n: u64) -> ClockTime {
    ClockTime::from_mseconds(n)
}

/// A tensor with boxes that take `width` numbers each.
fn tensor(width: u32, claimed: u32, boxes: &[[u32; 4]]) -> Vec<u8> {
    let mut data = Vec::new();
    let header = [0xfeed_cced, 0xde00_1000, 1, width, claimed, 1, 1, 0, 0, 0, 0, 1, 4, 0u32];
    for field in header {
        data.extend_from_slice(&field.to_le_bytes());
    }
    data.resize(128, 0);
    for b in boxes {
        for field in b {
            data.extend_from_slice(&field.to_le_bytes());
        }
        for _ in 4..width {
            data.extend_from_slice(&[0xff; 4]);
        }
    }
    data
}

fn sent(data: Vec<u8>) -> Buffer {
    Buffer { pts: Some(ms(1)), duration: None, data }
}

fn tracker() -> ObjectTracker {
    ObjectTracker { state: State::default() }
}

#[test]
fn tracker_parameters() {
    let state = State::default();
    assert_eq!(state.shards, 1);
    assert_eq!(state.bbox_history, 10);
    assert_eq!(state.max_idle_epochs, 1);
}

#[test]
fn boxes_are_read() {
    let data = tensor(5, 2, &[[1, 2, 3, 4], [0x0102_0304, 6, 7, 8]]);
    let boxes = tracker().sink_chain(&sent(data)).unwrap().unwrap();
    assert_eq!(
        boxes,
        vec![
            TensorBBox { x: 1, y: 2, w: 3, h: 4 },
            TensorBBox { x: 0x0102_0304, y: 6, w: 7, h: 8 },
        ]
    );
}

#[test]
fn tensor_without_boxes() {
    assert_eq!(tracker().sink_chain(&sent(tensor(4, 0, &[]))).unwrap().unwrap(), vec![]);
}

#[test]
fn short_buffers_hold_nothing() {
    assert_eq!(tracker().sink_chain(&sent(vec![0; 55])), Ok(None));
}

#[test]
fn broken_tensors_are_refused() {
    let data = tensor(4, 2, &[[1, 2, 3, 4]]);
    assert_eq!(tracker().sink_chain(&sent(data)), Err(FlowError::Error));
    let mut data = tensor(4, 1, &[[1, 2, 3, 4]]);
    data.pop();
    assert_eq!(tracker().sink_chain(&sent(data)), Err(FlowError::Error));
    let mut data = tensor(4, 1, &[[1, 2, 3, 4]]);
    data[8] = 99;
    assert_eq!(tracker().sink_chain(&sent(data)), Err(FlowError::Error));
    let data = tensor(u32::MAX, u32::MAX, &[]);
    assert_eq!(tracker().sink_chain(&sent(data)), Err(FlowError::Error));
}

#[test]
fn tensors_need_a_time() {
    let mut buffer = sent(tensor(4, 1, &[[1, 2, 3, 4]]));
    buffer.pts = None;
    assert_eq!(tracker().sink_chain(&buffer), Err(FlowError::Error));
}

#[test]
fn boxes_of_an_unknown_header_follow_at_once() {
    let mut data = tensor(4, 1, &[[1, 2, 3, 4]]);
    data[4] = 1;
    let boxes = tracker().sink_chain(&sent(data)).unwrap().unwrap();
    assert_eq!(boxes[0], TensorBBox { x: 0xfeed_cced, y: 0xde00_1001, w: 1, h: 4 });
}

#[test]
fn track_numbers_as_bytes() {
    assert_eq!(
        tracker().output(&vec![1, 0x0203]),
        vec![2, 0, 0, 0, 0, 0, 0, 0, 1, 0, 0, 0, 0, 0, 0, 0, 3, 2, 0, 0, 0, 0, 0, 0]
    );
    assert_eq!(tracker().output(&vec![]), vec![0; 8]);
}

#[test]
fn track_lists_are_recognized() {
    let mut data = tracker().output(&vec![1, 2]);
    assert!(is_track_list(&data));
    assert!(has_tracks(&data));
    data.push(9);
    assert!(has_tracks(&data));
    data.truncate(23);
    assert!(!is_track_list(&data));
    assert!(!has_tracks(&data));
    assert!(!is_track_list(&[0; 7]));
    assert!(is_track_list(&[0; 8]));
    assert!(!has_tracks(&[0; 8]));
    assert!(!is_track_list(&[0xff; 8]));
}

#[test]
fn voice_is_heard_while_a_face_is_seen() {
    let mut voice = VisualVoice::new();
    let faces = tracker().output(&vec![4]);
    voice.face_sink_chain(&faces, Some(ms(1000)));
    assert_eq!(voice.state.last_seen, ms(1000));
    for time in [0, 1000, 1100] {
        let buffer = Buffer { pts: Some(ms(time)), duration: Some(ms(2)), data: vec![1, 2, 3] };
        let out = voice.audio_sink_chain(buffer).unwrap();
        assert_eq!(out.data, vec![1, 2, 3]);
        assert_eq!(out.pts, Some(ms(time)));
        assert_eq!(out.duration, Some(ms(2)));
    }
}

#[test]
fn voice_is_muted_without_a_face() {
    let voice = VisualVoice::new();
    let pts = Some(ClockTime { ns: 100_000_001 });
    let buffer = Buffer { pts, duration: Some(ms(2)), data: vec![1, 2, 3] };
    let out = voice.audio_sink_chain(buffer).unwrap();
    assert_eq!(out.data, vec![0, 0, 0]);
    assert_eq!(out.pts, None);
    assert_eq!(out.duration, None);
}

#[test]
fn no_face_in_the_list() {
    let mut voice = VisualVoice::new();
    voice.face_sink_chain(&tracker().output(&vec![]), Some(ms(1000)));
    assert_eq!(voice.state.last_seen, ms(0));
    voice.face_sink_chain(&tracker().output(&vec![]), None);
    assert_eq!(voice.state.last_seen, ms(0));
}

#[test]
fn voice_needs_a_time() {
    let buffer = Buffer { pts: None, duration: None, data: vec![] };
    assert_eq!(VisualVoice::new().audio_sink_chain(buffer).unwrap_err(), FlowError::Error);
}
