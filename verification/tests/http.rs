use azrath::http::{ChunkPoll, ReadStep, ReaderStream, CAP};
use azrath::{Body, BodyReader};
use std::io;
use std::task::Context;

fn next_of(body: &mut Body) -> Option<io::Result<Vec<u8>>> {
    let mut cx = Context::from_waker(futures::task::noop_waker_ref());
    match body.poll_chunk(&mut cx) {
        ChunkPoll::Ready(item) => item,
        ChunkPoll::Pending => panic!("body not ready"),
    }
}

fn step(reader: &mut BodyReader<'_>, buf: &mut [u8]) -> ReadStep {
    let mut cx = Context::from_waker(futures::task::noop_waker_ref());
    reader.read_step(buf, &mut cx)
}

fn chunks_of(mut body: Body) -> Vec<Vec<u8>> {
    let mut content = Vec::new();
    while let Some(chunk) = next_of(&mut body) {
        content.push(chunk.unwrap());
    }
    content
}

fn read_all(body: &mut Body, buf_len: usize) -> Vec<u8> {
    let mut reader = body.reader();
    let mut out = Vec::new();
    let mut buf = vec![0u8; buf_len];
    loop {
        match step(&mut reader, &mut buf) {
            ReadStep::Read(0) => return out,
            ReadStep::Read(n) => out.extend_from_slice(&buf[..n]),
            ReadStep::Retry => continue,
            ReadStep::Failed(e) => panic!("read failed: {}", e),
            ReadStep::Pending => panic!("body not ready"),
        }
    }
}

#[test]
fn test_body_creation() {
    let body = Body::new(b"Hello World!");
    let content = chunks_of(body);
    assert_eq!(&content[0][..], b"Hello World!");
}

#[test]
fn test_empty_body() {
    let mut body = Body::empty();
    assert!(next_of(&mut body).is_none());
}

#[test]
fn test_response_builder() {
    let response = hyper::Response::builder()
        .status(200)
        .header("Content-Type", "text/plain")
        .body(Body::new(b"OK"))
        .unwrap();

    assert_eq!(response.status(), 200);
    assert_eq!(
        response.headers().get("Content-Type").unwrap(),
        "text/plain"
    );
}

#[test]
fn body_from_bytes_yields_one_chunk_then_ends() {
    let mut body = Body::new(&[0, 1, 0, 1, 0]);
    assert_eq!(next_of(&mut body).unwrap().unwrap(), vec![0, 1, 0, 1, 0]);
    assert!(next_of(&mut body).is_none());
    assert!(next_of(&mut body).is_none());
}

#[test]
fn body_from_empty_bytes_is_empty() {
    let body = Body::new(b"");
    assert!(chunks_of(body).is_empty());
    assert!(chunks_of(Body::default()).is_empty());
}

#[test]
fn reader_reads_whole_body() {
    let mut body = Body::new(b"Hello world!");
    assert_eq!(read_all(&mut body, 1024), b"Hello world!".to_vec());
    let mut body = Body::new(b"Hello world!");
    assert_eq!(read_all(&mut body, 5), b"Hello world!".to_vec());
}

#[test]
fn reader_hands_out_kept_bytes_in_buffer_sized_pieces() {
    let mut body = Body::new(b"abcdefg");
    let mut reader = body.reader();
    let mut buf = [9u8; 3];
    assert!(matches!(step(&mut reader, &mut buf), ReadStep::Read(3)));
    assert_eq!(&buf, b"abc");
    assert_eq!(reader.prev_bytes, b"defg".to_vec());
    assert!(matches!(step(&mut reader, &mut buf), ReadStep::Read(3)));
    assert_eq!(&buf, b"def");
    let mut big = [9u8; 8];
    assert!(matches!(step(&mut reader, &mut big), ReadStep::Read(1)));
    assert_eq!(&big, &[b'g', 9, 9, 9, 9, 9, 9, 9]);
    assert!(matches!(step(&mut reader, &mut big), ReadStep::Read(0)));
}

#[test]
fn reader_with_empty_buffer_reads_nothing() {
    let mut body = Body::new(b"abc");
    let mut reader = body.reader();
    let mut buf: [u8; 0] = [];
    assert!(matches!(step(&mut reader, &mut buf), ReadStep::Read(0)));
    let mut buf = [0u8; 3];
    assert!(matches!(step(&mut reader, &mut buf), ReadStep::Read(3)));
    assert_eq!(&buf, b"abc");
}

#[test]
fn wrapped_reader_streams_its_input() {
    let data: Vec<u8> = (0..10_000u32).map(|i| (i % 251) as u8).collect();
    let body = Body::wrap_reader(io::Cursor::new(data.clone()));
    let chunks = chunks_of(body);
    assert!(chunks.iter().all(|c| !c.is_empty() && c.len() <= CAP));
    assert_eq!(chunks.concat(), data);
    let mut body = Body::wrap_reader(io::Cursor::new(data.clone()));
    assert_eq!(read_all(&mut body, 777), data);
}

#[test]
fn reader_stream_chunks_and_ends() {
    let mut stream = ReaderStream::new(io::Cursor::new(b"hello".to_vec()));
    assert_eq!(stream.next_chunk().unwrap().unwrap(), b"hello".to_vec());
    assert!(stream.next_chunk().is_none());
    assert!(stream.next_chunk().is_none());
}

#[test]
fn reader_stream_after_read() {
    let mut stream = ReaderStream::new(io::Cursor::new(Vec::<u8>::new()));
    let chunk = stream.after_read(Ok(10)).unwrap().unwrap();
    assert_eq!(chunk, vec![0u8; 10]);
    let chunk = stream.after_read(Ok(CAP - 10)).unwrap().unwrap();
    assert_eq!(chunk.len(), CAP - 10);
    let mut stream = ReaderStream::new(io::Cursor::new(Vec::<u8>::new()));
    assert!(stream.after_read(Ok(0)).is_none());
    assert!(stream.next_chunk().is_none());
    let mut stream = ReaderStream::new(io::Cursor::new(Vec::<u8>::new()));
    let err = stream.after_read(Err(io::Error::new(io::ErrorKind::Other, "bad")));
    assert!(matches!(err, Some(Err(_))));
    assert!(stream.next_chunk().is_none());
}

struct FailingReader;

impl io::Read for FailingReader {
    fn read(&mut self, _buf: &mut [u8]) -> io::Result<usize> {
        Err(io::Error::new(io::ErrorKind::Other, "broken"))
    }
}

#[test]
fn reader_stream_error_ends_stream() {
    let mut stream = ReaderStream::new(FailingReader);
    assert!(matches!(stream.next_chunk(), Some(Err(_))));
    assert!(stream.next_chunk().is_none());
}

#[test]
fn failing_body_fails_read_step() {
    let mut body = Body::wrap_reader(FailingReader);
    let mut reader = body.reader();
    let mut buf = [0u8; 4];
    assert!(matches!(step(&mut reader, &mut buf), ReadStep::Failed(_)));
    assert_eq!(buf, [0u8; 4]);
    assert!(matches!(step(&mut reader, &mut buf), ReadStep::Read(0)));
}

#[test]
fn empty_chunk_asks_for_retry() {
    let (mut sender, inner) = hyper::Body::channel();
    sender.try_send_data(hyper::body::Bytes::new()).unwrap();
    drop(sender);
    let mut body = Body(inner);
    let mut reader = body.reader();
    let mut buf = [7u8; 4];
    assert!(matches!(step(&mut reader, &mut buf), ReadStep::Retry));
    assert_eq!(buf, [7u8; 4]);
    assert!(matches!(step(&mut reader, &mut buf), ReadStep::Read(0)));
}

#[test]
fn streamed_chunks_pass_through_reader() {
    let (mut sender, inner) = hyper::Body::channel();
    sender.try_send_data(hyper::body::Bytes::from_static(b"ab")).unwrap();
    drop(sender);
    let mut body = Body(inner);
    assert_eq!(read_all(&mut body, 1), b"ab".to_vec());
}

#[test]
fn reader_read_sizes_follow_the_buffer() {
    let mut body = Body::new(b"Hello world!");
    let mut reader = body.reader();
    let mut buf = [0u8; 5];
    assert!(matches!(step(&mut reader, &mut buf), ReadStep::Read(5)));
    assert_eq!(&buf, b"Hello");
    assert!(matches!(step(&mut reader, &mut buf), ReadStep::Read(5)));
    assert_eq!(&buf, b" worl");
    assert!(matches!(step(&mut reader, &mut buf), ReadStep::Read(2)));
    assert_eq!(&buf[..2], b"d!");
    assert!(matches!(step(&mut reader, &mut buf), ReadStep::Read(0)));
}

#[test]
fn accept_chunk_takes_each_kind_of_item() {
    let mut body = Body::empty();
    let mut reader = body.reader();
    let mut buf = [7u8; 4];
    assert!(matches!(reader.accept_chunk(&mut buf, None), ReadStep::Read(0)));
    assert_eq!(buf, [7u8; 4]);
    assert!(matches!(reader.accept_chunk(&mut buf, Some(Ok(Vec::new()))), ReadStep::Retry));
    assert_eq!(buf, [7u8; 4]);
    let failed = reader.accept_chunk(&mut buf, Some(Err(io::Error::new(io::ErrorKind::Other, "gone"))));
    match failed {
        ReadStep::Failed(e) => assert_eq!(e.to_string(), "gone"),
        _ => panic!("expected a failure"),
    }
    assert_eq!(buf, [7u8; 4]);
    assert!(reader.prev_bytes.is_empty());
    assert!(matches!(reader.accept_chunk(&mut buf, Some(Ok(b"abcdef".to_vec()))), ReadStep::Read(4)));
    assert_eq!(&buf, b"abcd");
    assert_eq!(reader.prev_bytes, b"ef".to_vec());
}

#[test]
fn accept_chunk_shorter_than_buffer_keeps_the_tail_of_the_buffer() {
    let mut body = Body::empty();
    let mut reader = body.reader();
    let mut buf = [7u8; 4];
    assert!(matches!(reader.accept_chunk(&mut buf, Some(Ok(b"xy".to_vec()))), ReadStep::Read(2)));
    assert_eq!(buf, [b'x', b'y', 7, 7]);
    assert!(reader.prev_bytes.is_empty());
}

#[test]
fn reader_stream_refills_an_emptied_buffer() {
    let data: Vec<u8> = (0..(2 * CAP + 3)).map(|i| (i % 7) as u8).collect();
    let mut stream = ReaderStream::new(io::Cursor::new(data.clone()));
    let first = stream.next_chunk().unwrap().unwrap();
    assert_eq!(first.len(), CAP);
    let second = stream.next_chunk().unwrap().unwrap();
    assert_eq!(second.len(), CAP);
    let third = stream.next_chunk().unwrap().unwrap();
    assert_eq!(third.len(), 3);
    assert!(stream.next_chunk().is_none());
    assert_eq!([first, second, third].concat(), data);
}
