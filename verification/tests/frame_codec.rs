use std::io::{Error, ErrorKind};
use whimpr::ipc::codec::{
    encode_frame, read_exact_or_eof, CodecError, Fill, FrameReader, ReadEnd, ReadEvent, ReadStep,
    Truncation, MAX_FRAME_LEN,
};

/// What reading one frame from `stream[*pos..]` gives, taking at most `chunk`
/// bytes per read, the way a caller drives the reader over a pipe.
enum Got {
    Frame(Vec<u8>),
    Closed,
    TooLarge(usize),
    Truncated(Truncation),
    Failed(Error),
}

fn read_one(stream: &[u8], pos: &mut usize, chunk: usize) -> Got {
    let mut reader = FrameReader::new();
    loop {
        let want = reader.wanted().min(chunk);
        let end = (*pos + want).min(stream.len());
        let bytes = stream[*pos..end].to_vec();
        *pos = end;
        match reader.feed(ReadEvent::Bytes(bytes)) {
            ReadStep::More(next) => reader = next,
            ReadStep::Frame(body) => return Got::Frame(body),
            ReadStep::Closed => return Got::Closed,
            ReadStep::TooLarge(n) => return Got::TooLarge(n),
            ReadStep::Truncated(t) => return Got::Truncated(t),
            ReadStep::Failed(e) => return Got::Failed(e),
        }
    }
}

#[test]
fn encodes_length_prefix_little_endian() {
    let v = encode_frame(b"ab").unwrap();
    assert_eq!(v, vec![2, 0, 0, 0, b'a', b'b']);
    let empty = encode_frame(b"").unwrap();
    assert_eq!(empty, vec![0, 0, 0, 0]);
    let long = vec![7u8; 300];
    let v = encode_frame(&long).unwrap();
    assert_eq!(&v[..4], &[44, 1, 0, 0]);
    assert_eq!(&v[4..], &long[..]);
}

#[test]
fn encoding_rejects_oversized_body() {
    let big = vec![0u8; MAX_FRAME_LEN + 1];
    match encode_frame(&big) {
        Err(CodecError::FrameTooLarge(n)) => assert_eq!(n, MAX_FRAME_LEN + 1),
        other => panic!("unexpected {:?}", other.map(|v| v.len())),
    }
    assert!(encode_frame(&vec![0u8; MAX_FRAME_LEN]).is_ok());
}

#[test]
fn round_trips_a_frame() {
    let body = br#"{"type":"ping","seq":42}"#;
    let stream = encode_frame(body).unwrap();
    for chunk in [1, 2, 3, 5, 1000] {
        let mut pos = 0;
        match read_one(&stream, &mut pos, chunk) {
            Got::Frame(b) => assert_eq!(b, body.to_vec()),
            _ => panic!("expected a frame"),
        }
        assert_eq!(pos, stream.len());
    }
}

#[test]
fn reads_multiple_frames_in_order_then_closes() {
    let mut stream = encode_frame(br#"{"type":"pong","seq":1}"#).unwrap();
    stream.extend(encode_frame(b"").unwrap());
    stream.extend(encode_frame(br#"{"type":"pong","seq":2}"#).unwrap());
    let mut pos = 0;
    let a = read_one(&stream, &mut pos, 1000);
    let b = read_one(&stream, &mut pos, 1000);
    let c = read_one(&stream, &mut pos, 1000);
    let d = read_one(&stream, &mut pos, 1000);
    assert!(matches!(a, Got::Frame(ref x) if x == br#"{"type":"pong","seq":1}"#));
    assert!(matches!(b, Got::Frame(ref x) if x.is_empty()));
    assert!(matches!(c, Got::Frame(ref x) if x == br#"{"type":"pong","seq":2}"#));
    assert!(matches!(d, Got::Closed), "clean EOF at frame boundary yields Closed");
}

#[test]
fn rejects_oversized_length_without_reading_a_body() {
    let bogus = (MAX_FRAME_LEN as u32 + 1).to_le_bytes();
    let mut reader = FrameReader::new();
    assert_eq!(reader.wanted(), 4);
    match reader.feed(ReadEvent::Bytes(bogus[..2].to_vec())) {
        ReadStep::More(next) => reader = next,
        _ => panic!("half a prefix needs more"),
    }
    assert_eq!(reader.wanted(), 2);
    match reader.feed(ReadEvent::Bytes(bogus[2..].to_vec())) {
        ReadStep::TooLarge(n) => assert_eq!(n, MAX_FRAME_LEN + 1),
        other => panic!("unexpected {:?}", other),
    }
    let mut pos = 0;
    assert!(matches!(read_one(&bogus, &mut pos, 1000), Got::TooLarge(n) if n == MAX_FRAME_LEN + 1));
}

#[test]
fn accepts_a_length_of_exactly_the_maximum() {
    let prefix = (MAX_FRAME_LEN as u32).to_le_bytes();
    match FrameReader::new().feed(ReadEvent::Bytes(prefix.to_vec())) {
        ReadStep::More(next) => assert_eq!(next.wanted(), MAX_FRAME_LEN),
        other => panic!("unexpected {:?}", other),
    }
}

#[test]
fn eof_inside_the_prefix_is_an_error() {
    let mut pos = 0;
    assert!(matches!(read_one(&[5, 0], &mut pos, 1000), Got::Truncated(Truncation::LengthPrefix)));
    let mut pos = 0;
    assert!(matches!(read_one(&[5], &mut pos, 1), Got::Truncated(Truncation::LengthPrefix)));
}

#[test]
fn eof_inside_the_body_is_an_error() {
    let mut stream = encode_frame(b"hello").unwrap();
    stream.truncate(6);
    let mut pos = 0;
    assert!(matches!(read_one(&stream, &mut pos, 1000), Got::Truncated(Truncation::Body)));
    let mut pos = 0;
    assert!(
        matches!(read_one(&stream[..4], &mut pos, 1000), Got::Truncated(Truncation::Body)),
        "a body cut off before its first byte is truncated too"
    );
}

#[test]
fn interrupted_reads_are_retried_and_other_failures_end_the_read() {
    let reader = FrameReader::new();
    let reader = match reader.feed(ReadEvent::Interrupted) {
        ReadStep::More(next) => next,
        other => panic!("unexpected {:?}", other),
    };
    assert_eq!(reader.wanted(), 4);
    match reader.feed(ReadEvent::Failed(Error::from(ErrorKind::BrokenPipe))) {
        ReadStep::Failed(e) => assert_eq!(e.kind(), ErrorKind::BrokenPipe),
        other => panic!("unexpected {:?}", other),
    }
}

#[test]
fn fill_steps() {
    assert_eq!(read_exact_or_eof(0, 4, 0), Fill::Ended(ReadEnd::Eof));
    assert_eq!(read_exact_or_eof(2, 4, 0), Fill::UnexpectedEof);
    assert_eq!(read_exact_or_eof(1, 4, 3), Fill::Ended(ReadEnd::Filled));
    assert_eq!(read_exact_or_eof(1, 4, 2), Fill::Partial(3));
    assert_eq!(read_exact_or_eof(0, 4, 4), Fill::Ended(ReadEnd::Filled));
    assert_eq!(read_exact_or_eof(0, 0, 0), Fill::Ended(ReadEnd::Filled));
    assert_eq!(read_exact_or_eof(4, 4, 0), Fill::Ended(ReadEnd::Filled));
}

#[test]
fn interrupted_reads_change_nothing() {
    let stream = encode_frame(b"xyz").unwrap();
    let mut reader = FrameReader::new();
    let mut pos = 0;
    loop {
        reader = match reader.feed(ReadEvent::Interrupted) {
            ReadStep::More(next) => next,
            other => panic!("unexpected {:?}", other),
        };
        let want = reader.wanted();
        let bytes = stream[pos..pos + want.min(2)].to_vec();
        pos += bytes.len();
        match reader.feed(ReadEvent::Bytes(bytes)) {
            ReadStep::More(next) => reader = next,
            ReadStep::Frame(body) => {
                assert_eq!(body, b"xyz".to_vec());
                break;
            }
            other => panic!("unexpected {:?}", other),
        }
    }
    assert_eq!(pos, stream.len());
}
