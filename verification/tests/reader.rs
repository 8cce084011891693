use bytes::Bytes;
use request_body::error::BodyError;
use request_body::reader::{http_dump_body, http_read_body, BodyReader, ReaderAction, ReaderPhase};

fn chunks_of(parts: &[&[u8]]) -> Vec<Bytes> {
    parts.iter().map(|p| Bytes::copy_from_slice(p)).collect()
}

#[test]
fn body_of_exactly_the_cap_is_read() {
    let chunks = chunks_of(&[b"0123456789"]);
    let body = http_read_body(&chunks, 10).unwrap();
    assert_eq!(body.len(), 10);
    assert_eq!(&body[..], b"0123456789");
}

#[test]
fn body_one_byte_over_the_cap_is_oversize() {
    let chunks = chunks_of(&[b"0123456789A"]);
    let err = http_read_body(&chunks, 10).unwrap_err();
    assert!(matches!(err, BodyError::Oversize { cap: 10 }));
    assert_eq!(err.message(), "request body exceeded maximum size of 10 bytes");
}

#[test]
fn empty_body_is_an_empty_buffer() {
    let body = http_read_body(&Vec::new(), 0).unwrap();
    assert_eq!(body.len(), 0);
    let body = http_read_body(&chunks_of(&[b"", b""]), 0).unwrap();
    assert_eq!(body.len(), 0);
}

#[test]
fn chunks_are_joined_in_order() {
    let chunks = chunks_of(&[b"ab", b"", b"cde", b"f"]);
    let body = http_read_body(&chunks, 6).unwrap();
    assert_eq!(&body[..], b"abcdef");
}

#[test]
fn oversize_is_decided_by_the_total() {
    let chunks = chunks_of(&[b"abc", b"def", b"g"]);
    assert!(http_read_body(&chunks, 7).is_ok());
    let err = http_read_body(&chunks, 6).unwrap_err();
    assert!(matches!(err, BodyError::Oversize { cap: 6 }));
    let err = http_read_body(&chunks, 0).unwrap_err();
    assert!(matches!(err, BodyError::Oversize { cap: 0 }));
}

#[test]
fn success_iff_size_within_cap() {
    for size in 0usize..6 {
        for cap in 0usize..6 {
            let chunks: Vec<Bytes> = (0..size).map(|i| Bytes::from(vec![i as u8])).collect();
            let r = http_read_body(&chunks, cap);
            if size <= cap {
                assert_eq!(r.unwrap().len(), size);
            } else {
                assert!(matches!(r.unwrap_err(), BodyError::Oversize { cap: c } if c == cap));
            }
        }
    }
}

#[test]
fn dump_counts_every_byte() {
    assert_eq!(http_dump_body(&Vec::new()), 0);
    assert_eq!(http_dump_body(&chunks_of(&[b"abc", b"", b"de"])), 5);
}

#[test]
fn reader_asks_for_data_then_trailers_then_finishes() {
    let mut reader = BodyReader::new(4);
    assert_eq!(reader.next_action(), ReaderAction::ReadData);
    reader.on_data(&Bytes::from_static(b"ab"));
    assert_eq!(reader.next_action(), ReaderAction::ReadData);
    reader.on_data(&Bytes::from_static(b"cd"));
    assert_eq!(reader.phase(), ReaderPhase::Reading);
    reader.on_data_end();
    assert_eq!(reader.phase(), ReaderPhase::Trailers);
    assert_eq!(reader.next_action(), ReaderAction::ReadTrailers);
    reader.on_trailers();
    assert_eq!(reader.phase(), ReaderPhase::Complete);
    assert_eq!(reader.next_action(), ReaderAction::Finish);
    assert_eq!(&reader.finish().unwrap()[..], b"abcd");
}

#[test]
fn reader_drains_the_stream_after_overflow() {
    let mut reader = BodyReader::new(3);
    reader.on_data(&Bytes::from_static(b"ab"));
    reader.on_data(&Bytes::from_static(b"cd"));
    assert_eq!(reader.phase(), ReaderPhase::Dumping);
    assert_eq!(reader.next_action(), ReaderAction::ReadData);
    reader.on_data(&Bytes::from_static(b"e"));
    assert_eq!(reader.phase(), ReaderPhase::Dumping);
    assert_eq!(reader.next_action(), ReaderAction::ReadData);
    reader.on_data_end();
    assert_eq!(reader.phase(), ReaderPhase::Oversize);
    assert_eq!(reader.next_action(), ReaderAction::Finish);
    assert!(matches!(reader.finish().unwrap_err(), BodyError::Oversize { cap: 3 }));
}

#[test]
fn a_small_chunk_after_overflow_is_not_accumulated() {
    let mut reader = BodyReader::new(3);
    reader.on_data(&Bytes::from_static(b"ab"));
    reader.on_data(&Bytes::from_static(b"cdef"));
    reader.on_data(&Bytes::from_static(b"g"));
    reader.on_data_end();
    reader.on_trailers();
    assert_eq!(reader.phase(), ReaderPhase::Oversize);
}

#[test]
fn stream_failure_is_handed_on_unchanged() {
    let mut reader = BodyReader::new(8);
    reader.on_data(&Bytes::from_static(b"ab"));
    reader.on_error(String::from("connection reset"));
    assert_eq!(reader.phase(), ReaderPhase::Failed);
    assert_eq!(reader.next_action(), ReaderAction::Finish);
    let err = reader.finish().unwrap_err();
    assert!(matches!(&err, BodyError::Transport { message } if message == "connection reset"));
    assert_eq!(err.message(), "connection reset");
}

#[test]
fn stream_failure_while_draining_or_in_trailers() {
    let mut reader = BodyReader::new(1);
    reader.on_data(&Bytes::from_static(b"ab"));
    reader.on_error(String::from("broken pipe"));
    assert!(matches!(reader.finish().unwrap_err(), BodyError::Transport { .. }));

    let mut reader = BodyReader::new(1);
    reader.on_data_end();
    reader.on_error(String::from("bad trailers"));
    assert!(matches!(reader.finish().unwrap_err(), BodyError::Transport { .. }));
}

#[test]
fn a_finished_reader_ignores_later_events() {
    let mut reader = BodyReader::new(2);
    reader.on_data(&Bytes::from_static(b"ab"));
    reader.on_data_end();
    reader.on_trailers();
    reader.on_data(&Bytes::from_static(b"cd"));
    reader.on_error(String::from("late"));
    reader.on_data_end();
    assert_eq!(reader.phase(), ReaderPhase::Complete);
    assert_eq!(&reader.finish().unwrap()[..], b"ab");
}
