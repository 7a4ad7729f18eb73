use onion_fetch::error::FetchError;
use onion_fetch::transfer::{drain, status_is_success, Download, DownloadEvent, Frame};

fn chunk(n: usize, byte: u8) -> Frame {
    Frame::Data(vec![byte; n])
}

#[test]
fn chunks_are_reported_in_order_then_finished() {
    let frames = vec![chunk(10, 1), chunk(20, 2), chunk(5, 3)];
    let (result, events) = drain(200, &frames, true);
    let result = result.ok().unwrap();
    assert_eq!(result.status, 200);
    assert_eq!(result.body.len(), 35);
    assert_eq!(&result.body[..10], &[1u8; 10][..]);
    assert_eq!(&result.body[10..30], &[2u8; 20][..]);
    assert_eq!(&result.body[30..], &[3u8; 5][..]);
    assert_eq!(
        events,
        vec![
            DownloadEvent::Progress { chunk_length: 10 },
            DownloadEvent::Progress { chunk_length: 20 },
            DownloadEvent::Progress { chunk_length: 5 },
            DownloadEvent::Finished {},
        ]
    );
}

#[test]
fn failure_mid_read_keeps_only_delivered_progress() {
    let frames = vec![chunk(10, 1), Frame::Failed(FetchError::ConnectError), chunk(7, 2)];
    let (result, events) = drain(200, &frames, true);
    assert_eq!(result.err(), Some(FetchError::ConnectError));
    assert_eq!(events, vec![DownloadEvent::Progress { chunk_length: 10 }]);

    let frames = vec![chunk(4, 1), Frame::Failed(FetchError::ProtocolError)];
    let (result, events) = drain(200, &frames, true);
    assert_eq!(result.err(), Some(FetchError::ProtocolError));
    assert_eq!(events, vec![DownloadEvent::Progress { chunk_length: 4 }]);
}

#[test]
fn without_a_sink_no_events_are_made() {
    let frames = vec![chunk(3, 9), chunk(2, 8)];
    let (result, events) = drain(404, &frames, false);
    let result = result.ok().unwrap();
    assert_eq!(result.status, 404);
    assert_eq!(result.body, vec![9, 9, 9, 8, 8]);
    assert!(events.is_empty());
}

#[test]
fn empty_body_still_finishes() {
    let (result, events) = drain(204, &Vec::new(), true);
    assert!(result.ok().unwrap().body.is_empty());
    assert_eq!(events, vec![DownloadEvent::Finished {}]);
}

#[test]
fn empty_frames_are_reported_as_zero_length() {
    let frames = vec![chunk(0, 0), chunk(2, 5)];
    let (_, events) = drain(200, &frames, true);
    assert_eq!(events[0], DownloadEvent::Progress { chunk_length: 0 });
    assert_eq!(events.len(), 3);
}

#[test]
fn download_accumulates_chunk_by_chunk() {
    let mut d = Download::new(200, true);
    assert_eq!(d.on_chunk(&[1, 2, 3]), Some(DownloadEvent::Progress { chunk_length: 3 }));
    assert_eq!(d.on_chunk(&[4]), Some(DownloadEvent::Progress { chunk_length: 1 }));
    let (result, end) = d.finish();
    assert_eq!(result.body, vec![1, 2, 3, 4]);
    assert_eq!(result.status, 200);
    assert_eq!(end, Some(DownloadEvent::Finished {}));

    let mut quiet = Download::new(200, false);
    assert_eq!(quiet.on_chunk(&[1]), None);
    assert_eq!(quiet.finish().1, None);
}

#[test]
fn success_statuses_are_two_hundreds() {
    assert_eq!(status_is_success(200), Ok(true));
    assert_eq!(status_is_success(299), Ok(true));
    assert_eq!(status_is_success(300), Ok(false));
    assert_eq!(status_is_success(199), Ok(false));
    assert_eq!(status_is_success(404), Ok(false));
    assert_eq!(status_is_success(999), Ok(false));
    assert_eq!(status_is_success(99), Err(FetchError::ProtocolError));
    assert_eq!(status_is_success(1000), Err(FetchError::ProtocolError));
}
