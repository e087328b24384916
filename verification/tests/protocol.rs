use unified_body::body::HttpBody;
use unified_body::frame::PollOutcome;
use unified_body::frame::SourceEvent;

fn expect_frame(outcome: PollOutcome) -> Vec<u8> {
    match outcome {
        PollOutcome::Frame(frame) => frame.into_payload(),
        PollOutcome::Exhausted => panic!("expected a data frame, got exhaustion"),
        PollOutcome::Failed(error) => panic!("expected a data frame, got: {}", error.message()),
        PollOutcome::Pending => panic!("expected a data frame, got not-ready"),
    }
}

fn expect_exhausted(outcome: PollOutcome) {
    assert!(matches!(outcome, PollOutcome::Exhausted));
}

#[test]
fn text_hello_yields_one_frame_then_exhaustion() {
    let mut body = HttpBody::from_text("hello");
    let payload = expect_frame(body.poll_frame(SourceEvent::Pending));
    assert_eq!(payload, vec![104u8, 101, 108, 108, 111]);
    expect_exhausted(body.poll_frame(SourceEvent::Pending));
    expect_exhausted(body.poll_frame(SourceEvent::Pending));
}

#[test]
fn empty_bytes_yield_one_zero_length_frame_then_exhaustion() {
    let empty: [u8; 0] = [];
    let mut body = HttpBody::from_bytes(&empty);
    let payload = expect_frame(body.poll_frame(SourceEvent::Pending));
    assert_eq!(payload, Vec::<u8>::new());
    expect_exhausted(body.poll_frame(SourceEvent::Pending));
}

#[test]
fn empty_text_yields_one_zero_length_frame_then_exhaustion() {
    let mut body = HttpBody::from_text("");
    let payload = expect_frame(body.poll_frame(SourceEvent::Pending));
    assert!(payload.is_empty());
    expect_exhausted(body.poll_frame(SourceEvent::Pending));
}

#[test]
fn bytes_payload_is_copied_exactly() {
    let data: [u8; 6] = [0, 255, 1, 128, 2, 0];
    let mut body = HttpBody::from_bytes(&data);
    let payload = expect_frame(body.poll_frame(SourceEvent::Pending));
    assert_eq!(payload, data.to_vec());
    expect_exhausted(body.poll_frame(SourceEvent::Pending));
}

#[test]
fn buffered_body_needs_no_source_and_ignores_events() {
    let data: [u8; 3] = [10, 20, 30];
    let mut body = HttpBody::from_bytes(&data);
    assert!(!body.wants_event());
    // Whatever event is handed in, the buffered body emits its own payload.
    let payload = expect_frame(body.poll_frame(SourceEvent::Data(vec![99u8])));
    assert_eq!(payload, vec![10u8, 20, 30]);
    expect_exhausted(body.poll_frame(SourceEvent::Failed(String::from("ignored"))));
}

#[test]
fn exhaustion_is_idempotent_whatever_the_source_reports() {
    let data: [u8; 1] = [7];
    let mut body = HttpBody::from_bytes(&data);
    expect_frame(body.poll_frame(SourceEvent::Pending));
    assert!(body.is_exhausted());
    expect_exhausted(body.poll_frame(SourceEvent::Pending));
    expect_exhausted(body.poll_frame(SourceEvent::Data(vec![1u8, 2])));
    expect_exhausted(body.poll_frame(SourceEvent::Failed(String::from("late"))));
    expect_exhausted(body.poll_frame(SourceEvent::End));
    assert!(body.is_exhausted());
}

#[test]
fn file_chunks_reassemble_to_the_file_content() {
    let mut body = HttpBody::from_file();
    assert!(body.wants_event());
    let mut content: Vec<u8> = Vec::new();
    assert!(matches!(
        body.poll_frame(SourceEvent::Pending),
        PollOutcome::Pending
    ));
    content.extend(expect_frame(body.poll_frame(SourceEvent::Data(vec![97u8, 98]))));
    assert!(matches!(
        body.poll_frame(SourceEvent::Pending),
        PollOutcome::Pending
    ));
    content.extend(expect_frame(body.poll_frame(SourceEvent::Data(vec![99u8]))));
    content.extend(expect_frame(body.poll_frame(SourceEvent::Data(vec![100u8, 101]))));
    expect_exhausted(body.poll_frame(SourceEvent::End));
    expect_exhausted(body.poll_frame(SourceEvent::Pending));
    assert_eq!(content, vec![97u8, 98, 99, 100, 101]);
}

#[test]
fn file_read_failure_surfaces_as_the_unified_error() {
    let mut body = HttpBody::from_file();
    expect_frame(body.poll_frame(SourceEvent::Data(vec![1u8])));
    let outcome = body.poll_frame(SourceEvent::Failed(String::from("disk gone")));
    match outcome {
        PollOutcome::Failed(error) => assert_eq!(error.into_message(), "disk gone"),
        _ => panic!("expected the unified error"),
    }
    // The failure is terminal: later polls report exhaustion, even if the
    // source would have had more data.
    expect_exhausted(body.poll_frame(SourceEvent::Data(vec![2u8])));
    assert!(body.is_exhausted());
    assert!(!body.wants_event());
}

#[test]
fn direct_source_is_delegated_verbatim() {
    let mut body = HttpBody::from_incoming();
    assert!(body.wants_event());
    let chunks: [&[u8]; 3] = [&[1, 2, 3], &[], &[4]];
    for chunk in chunks {
        let payload = expect_frame(body.poll_frame(SourceEvent::Data(chunk.to_vec())));
        assert_eq!(payload, chunk.to_vec());
    }
    expect_exhausted(body.poll_frame(SourceEvent::End));
    expect_exhausted(body.poll_frame(SourceEvent::Pending));
}

#[test]
fn quic_client_repackages_each_range_as_one_frame() {
    let mut body = HttpBody::from_quic_client();
    assert!(body.wants_event());
    let payload = expect_frame(body.poll_frame(SourceEvent::Data(vec![8u8, 9])));
    assert_eq!(payload, vec![8u8, 9]);
    expect_exhausted(body.poll_frame(SourceEvent::End));
}

#[test]
fn quic_server_repackages_each_range_as_one_frame() {
    let mut body = HttpBody::from_quic_server();
    assert!(body.wants_event());
    let payload = expect_frame(body.poll_frame(SourceEvent::Data(vec![42u8])));
    assert_eq!(payload, vec![42u8]);
    let outcome = body.poll_frame(SourceEvent::Failed(String::from("stream reset")));
    match outcome {
        PollOutcome::Failed(error) => assert_eq!(error.message(), "stream reset"),
        _ => panic!("expected the unified error"),
    }
    expect_exhausted(body.poll_frame(SourceEvent::Pending));
}

#[test]
fn poll_next_observes_the_same_sequence_as_poll_frame() {
    let mut by_frame = HttpBody::from_file();
    let mut by_next = HttpBody::from_file();
    let script: [SourceEvent; 5] = [
        SourceEvent::Pending,
        SourceEvent::Data(vec![1u8, 2]),
        SourceEvent::Data(vec![3u8]),
        SourceEvent::End,
        SourceEvent::Pending,
    ];
    let script_again: [SourceEvent; 5] = [
        SourceEvent::Pending,
        SourceEvent::Data(vec![1u8, 2]),
        SourceEvent::Data(vec![3u8]),
        SourceEvent::End,
        SourceEvent::Pending,
    ];
    let frames: Vec<PollOutcome> = script
        .into_iter()
        .map(|event| by_frame.poll_frame(event))
        .collect();
    let items: Vec<PollOutcome> = script_again
        .into_iter()
        .map(|event| by_next.poll_next(event))
        .collect();
    assert_eq!(frames.len(), items.len());
    for (frame_outcome, item_outcome) in frames.into_iter().zip(items.into_iter()) {
        match (frame_outcome, item_outcome) {
            (PollOutcome::Frame(a), PollOutcome::Frame(b)) => {
                assert_eq!(a.into_payload(), b.into_payload());
            }
            (PollOutcome::Exhausted, PollOutcome::Exhausted) => {}
            (PollOutcome::Failed(a), PollOutcome::Failed(b)) => {
                assert_eq!(a.into_message(), b.into_message());
            }
            (PollOutcome::Pending, PollOutcome::Pending) => {}
            _ => panic!("the two interfaces observed different sequences"),
        }
    }
}

#[test]
fn wants_event_tracks_the_variant_and_termination() {
    let data: [u8; 1] = [1];
    assert!(!HttpBody::from_bytes(&data).wants_event());
    assert!(HttpBody::from_incoming().wants_event());
    assert!(HttpBody::from_quic_client().wants_event());
    assert!(HttpBody::from_quic_server().wants_event());
    let mut file_body = HttpBody::from_file();
    assert!(file_body.wants_event());
    expect_exhausted(file_body.poll_frame(SourceEvent::End));
    assert!(!file_body.wants_event());
}

#[test]
fn frame_accessors_agree() {
    let data: [u8; 4] = [9, 8, 7, 6];
    let mut body = HttpBody::from_bytes(&data);
    match body.poll_frame(SourceEvent::Pending) {
        PollOutcome::Frame(frame) => {
            assert_eq!(frame.len(), 4);
            assert_eq!(frame.payload().as_slice(), &data);
            assert_eq!(frame.into_payload(), data.to_vec());
        }
        _ => panic!("expected a data frame"),
    }
}
