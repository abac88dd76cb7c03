use rangefetch::fetch::{check_status, download_partial_file, new_transport_client, sentinel_of, FetchError};
use rangefetch::fill::fill_from_chunks;
use rangefetch::notify::{Notifier, RecordingNotifier};
use rangefetch::textfmt::{notification_message, range_header_value};

#[test]
fn range_header_simple() {
    assert_eq!(range_header_value(0, 99), b"bytes=0-99".to_vec());
}

#[test]
fn range_header_single_byte() {
    assert_eq!(range_header_value(5, 5), b"bytes=5-5".to_vec());
}

#[test]
fn range_header_digits_with_zeros() {
    assert_eq!(range_header_value(100, 1000), b"bytes=100-1000".to_vec());
}

#[test]
fn range_header_largest_offsets() {
    assert_eq!(
        range_header_value(u64::MAX, u64::MAX),
        b"bytes=18446744073709551615-18446744073709551615".to_vec()
    );
}

#[test]
fn notification_message_example() {
    assert_eq!(
        notification_message(0, 99, 100),
        b"start: 0, end: 99, total: 99, buffersize: 100".to_vec()
    );
}

#[test]
fn notification_message_zero_width_range() {
    assert_eq!(
        notification_message(7, 7, 4),
        b"start: 7, end: 7, total: 0, buffersize: 4".to_vec()
    );
}

#[test]
fn notification_message_wraps_inverted_range() {
    assert_eq!(
        notification_message(5, 3, 1),
        b"start: 5, end: 3, total: 18446744073709551614, buffersize: 1".to_vec()
    );
}

#[test]
fn status_accepts_every_success_code() {
    assert_eq!(check_status(200), Ok(()));
    assert_eq!(check_status(204), Ok(()));
    assert_eq!(check_status(206), Ok(()));
    assert_eq!(check_status(299), Ok(()));
}

#[test]
fn status_rejects_not_found() {
    assert_eq!(check_status(404), Err(FetchError::Status));
}

#[test]
fn status_rejects_non_success_codes() {
    assert_eq!(check_status(100), Err(FetchError::Status));
    assert_eq!(check_status(199), Err(FetchError::Status));
    assert_eq!(check_status(300), Err(FetchError::Status));
    assert_eq!(check_status(301), Err(FetchError::Status));
    assert_eq!(check_status(500), Err(FetchError::Status));
}

#[test]
fn fill_whole_buffer_from_one_chunk() {
    let mut buffer = vec![0u8; 10];
    let chunks = vec![vec![10u8, 11, 12, 13, 14, 15, 16, 17, 18, 19]];
    let n = fill_from_chunks(&mut buffer, &chunks);
    assert_eq!(n, 10);
    assert_eq!(buffer, vec![10u8, 11, 12, 13, 14, 15, 16, 17, 18, 19]);
}

#[test]
fn fill_stops_at_end_of_stream() {
    let mut buffer = vec![9u8; 10];
    let chunks = vec![vec![1u8, 2, 3, 4], vec![]];
    let n = fill_from_chunks(&mut buffer, &chunks);
    assert_eq!(n, 4);
    assert_eq!(buffer, vec![1u8, 2, 3, 4, 9, 9, 9, 9, 9, 9]);
}

#[test]
fn fill_joins_short_reads_in_order() {
    let mut buffer = vec![0u8; 10];
    let chunks = vec![vec![1u8, 2, 3], vec![4u8, 5, 6, 7], vec![8u8, 9, 10]];
    let n = fill_from_chunks(&mut buffer, &chunks);
    assert_eq!(n, 10);
    assert_eq!(buffer, vec![1u8, 2, 3, 4, 5, 6, 7, 8, 9, 10]);
}

#[test]
fn fill_truncates_an_overlong_chunk() {
    let mut buffer = vec![0u8; 4];
    let chunks = vec![vec![1u8, 2, 3, 4, 5, 6]];
    let n = fill_from_chunks(&mut buffer, &chunks);
    assert_eq!(n, 4);
    assert_eq!(buffer, vec![1u8, 2, 3, 4]);
}

#[test]
fn fill_ignores_chunks_after_end_of_stream() {
    let mut buffer = vec![0u8; 10];
    let chunks = vec![vec![1u8, 2], vec![], vec![3u8, 4, 5]];
    let n = fill_from_chunks(&mut buffer, &chunks);
    assert_eq!(n, 2);
    assert_eq!(buffer, vec![1u8, 2, 0, 0, 0, 0, 0, 0, 0, 0]);
}

#[test]
fn fill_into_empty_buffer_writes_nothing() {
    let mut buffer: Vec<u8> = Vec::new();
    let chunks = vec![vec![1u8, 2, 3]];
    let n = fill_from_chunks(&mut buffer, &chunks);
    assert_eq!(n, 0);
    assert!(buffer.is_empty());
}

#[test]
fn recording_notifier_keeps_every_message() {
    let mut notifier = RecordingNotifier::new();
    assert_eq!(notifier.count(), 0);
    notifier.notify(b"first".to_vec());
    notifier.notify(b"second".to_vec());
    assert_eq!(notifier.count(), 2);
    assert_eq!(notifier.message_at(0), &b"first".to_vec());
    assert_eq!(notifier.message_at(1), &b"second".to_vec());
}

#[test]
fn download_rejects_malformed_url_without_notifying() {
    let client = new_transport_client().unwrap();
    let mut buffer = vec![7u8; 8];
    let mut notifier = RecordingNotifier::new();
    let r = download_partial_file(&client, "this is not a url", 0, 7, &mut buffer, &mut notifier);
    assert_eq!(r, Err(FetchError::Transport));
    assert_eq!(notifier.count(), 0);
    assert_eq!(buffer.len(), 8);
    assert_eq!(buffer, vec![7u8; 8]);
}

#[test]
fn download_reports_connect_failure_without_notifying() {
    let client = new_transport_client().unwrap();
    let mut buffer = vec![0u8; 16];
    let mut notifier = RecordingNotifier::new();
    let r = download_partial_file(&client, "http://127.0.0.1:9/resource", 0, 15, &mut buffer, &mut notifier);
    assert_eq!(r, Err(FetchError::Transport));
    assert_eq!(notifier.count(), 0);
    assert_eq!(buffer.len(), 16);
}

#[test]
fn sentinel_passes_counts_through_and_collapses_failures() {
    assert_eq!(sentinel_of(Ok(10)), 10);
    assert_eq!(sentinel_of(Ok(0)), 0);
    assert_eq!(sentinel_of(Err(FetchError::Transport)), -1);
    assert_eq!(sentinel_of(Err(FetchError::Status)), -1);
    assert_eq!(sentinel_of(Err(FetchError::BodyRead)), -1);
}
