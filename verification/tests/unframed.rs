use std::io;

use bytes::{Buf, BytesMut};
use monoio_codec::read::{FillEvent, NextStep, ReadEvent, ReadState, ReadStep, State};
use monoio_codec::{Decoded, Decoder, Framed};

struct ByteDecoder;

impl Decoder for ByteDecoder {
    type Item = u8;
    type Error = io::Error;

    fn decode(&mut self, buf: &mut BytesMut) -> io::Result<Decoded<u8>> {
        Ok(Decoded::Frame(buf.get_u8()))
    }
}

/// Reads what is buffered once `event` is taken in, with room for `total` bytes.
fn copied(read: &mut ReadState, total: usize, event: ReadEvent) -> Vec<u8> {
    match read.read(total, event) {
        ReadStep::Copy(count) => {
            let bytes = read.front(count).to_vec();
            assert_eq!(bytes.len(), count);
            match read.read(total, ReadEvent::Copied) {
                ReadStep::Done(Ok(n)) => assert_eq!(n, count),
                other => panic!("{:?}", other),
            }
            bytes
        }
        other => panic!("{:?}", other),
    }
}

fn filled(read: &mut ReadState, additional: usize, data: &[u8]) -> ReadEvent {
    let mut buffer = read.lend(additional).buffer;
    buffer.extend_from_slice(data);
    ReadEvent::Filled(buffer, Ok(data.len()))
}

#[test]
fn no_room_reads_nothing() {
    let mut read = ReadState::default();
    assert!(matches!(read.read(0, ReadEvent::Start), ReadStep::Done(Ok(0))));
    assert_eq!(read.state(), State::Framing(None));
}

#[test]
fn small_reads_go_through_the_buffer() {
    let mut read = ReadState::with_capacity(0);
    assert!(matches!(read.read(3, ReadEvent::Start), ReadStep::Fill(8192)));
    let event = filled(&mut read, 8192, &[1, 2, 3, 4, 5]);
    assert_eq!(copied(&mut read, 3, event), vec![1, 2, 3]);
    assert_eq!(read.buffer(), &[4u8, 5][..]);
    // What is buffered comes first, without a read, even for a large request.
    assert_eq!(copied(&mut read, 100_000, ReadEvent::Start), vec![4, 5]);
    assert!(read.buffer().is_empty());
    assert!(matches!(read.read(8192, ReadEvent::Start), ReadStep::Fill(8192)));
}

#[test]
fn large_reads_bypass_the_buffer() {
    let mut read = ReadState::default();
    assert!(matches!(read.read(8193, ReadEvent::Start), ReadStep::Direct));
    let step = read.read(8193, ReadEvent::Direct(Ok(17)));
    assert!(matches!(step, ReadStep::Done(Ok(17))));
    assert_eq!(read.state(), State::Framing(None));
    let step = read.read(8193, ReadEvent::Direct(Ok(0)));
    assert!(matches!(step, ReadStep::Done(Ok(0))));
    assert_eq!(read.state(), State::Pausing);
    let error = io::Error::new(io::ErrorKind::ConnectionReset, "");
    match read.read(8193, ReadEvent::Direct(Err(error))) {
        ReadStep::Done(Err(e)) => assert_eq!(e.kind(), io::ErrorKind::ConnectionReset),
        other => panic!("{:?}", other),
    }
    assert_eq!(read.state(), State::Errored);
}

#[test]
fn buffered_read_reports_end_and_error() {
    let mut read = ReadState::default();
    let event = filled(&mut read, 8192, &[]);
    assert!(matches!(read.read(5, event), ReadStep::Done(Ok(0))));
    assert_eq!(read.state(), State::Pausing);
    let buffer = read.lend(8192).buffer;
    let error = io::Error::new(io::ErrorKind::TimedOut, "");
    match read.read(5, ReadEvent::Filled(buffer, Err(error))) {
        ReadStep::Done(Err(e)) => assert_eq!(e.kind(), io::ErrorKind::TimedOut),
        other => panic!("{:?}", other),
    }
    assert_eq!(read.state(), State::Errored);
}

#[test]
fn vectored_read_uses_the_first_area() {
    let mut read = ReadState::default();
    assert!(matches!(read.readv(None, ReadEvent::Start), ReadStep::Done(Ok(0))));
    read.buffer_mut().extend_from_slice(&[1, 2, 3]);
    assert!(matches!(read.readv(None, ReadEvent::Start), ReadStep::Done(Ok(0))));
    assert!(matches!(read.readv(Some(2), ReadEvent::Start), ReadStep::Copy(2)));
    assert_eq!(read.front(2), &[1u8, 2][..]);
    let step = read.readv(Some(2), ReadEvent::Copied);
    assert!(matches!(step, ReadStep::Done(Ok(2))));
    assert_eq!(read.buffer(), &[3u8][..]);
}

#[test]
fn reads_deliver_the_stream() {
    let pieces: [&[u8]; 4] = [&[1, 2, 3], &[4], &[5, 6, 7, 8, 9], &[10]];
    let mut input = pieces.iter();
    let mut read = ReadState::default();
    let mut got = Vec::new();
    loop {
        let step = match read.read(2, ReadEvent::Start) {
            ReadStep::Fill(additional) => {
                let event = filled(&mut read, additional, input.next().copied().unwrap_or(&[]));
                read.read(2, event)
            }
            step => step,
        };
        match step {
            ReadStep::Copy(count) => {
                assert!(count > 0 && count <= 2);
                got.extend_from_slice(read.front(count));
                let step = read.read(2, ReadEvent::Copied);
                assert!(matches!(step, ReadStep::Done(Ok(n)) if n == count));
            }
            ReadStep::Done(Ok(0)) => break,
            other => panic!("{:?}", other),
        }
    }
    assert_eq!(got, (1u8..=10).collect::<Vec<_>>());
}

#[test]
fn unframed_read_goes_on_behind_the_frame() {
    let mut framed = Framed::new((), ByteDecoder);
    assert!(matches!(framed.next(FillEvent::Start), NextStep::Fill(4096)));
    let mut buffer = framed.lend(4096).buffer;
    buffer.extend_from_slice(&[1, 2, 3, 4]);
    let step = framed.next(FillEvent::Filled(buffer, Ok(4)));
    assert!(matches!(step, NextStep::Ready(Some(Ok(1)))));
    assert!(matches!(framed.read(2, ReadEvent::Start), ReadStep::Copy(2)));
    assert_eq!(framed.front(2), &[2u8, 3][..]);
    let step = framed.read(2, ReadEvent::Copied);
    assert!(matches!(step, ReadStep::Done(Ok(2))));
    let step = framed.next(FillEvent::Start);
    assert!(matches!(step, NextStep::Ready(Some(Ok(4)))));
}

#[test]
fn failed_reads_lose_nothing() {
    let mut read = ReadState::default();
    let mut got = Vec::new();
    let event = filled(&mut read, 8192, &[1, 2, 3]);
    got.extend(copied(&mut read, 2, event));
    got.extend(copied(&mut read, 2, ReadEvent::Start));
    // A read that fails after it brought something leaves that in the buffer.
    let mut buffer = read.lend(8192).buffer;
    buffer.extend_from_slice(&[4]);
    let error = io::Error::new(io::ErrorKind::TimedOut, "");
    let step = read.read(2, ReadEvent::Filled(buffer, Err(error)));
    assert!(matches!(step, ReadStep::Done(Err(_))));
    got.extend(copied(&mut read, 2, ReadEvent::Start));
    let event = filled(&mut read, 8192, &[5]);
    got.extend(copied(&mut read, 2, event));
    assert_eq!(got, vec![1, 2, 3, 4, 5]);
    assert!(read.buffer().is_empty());
}

#[test]
fn lending_uses_the_memory_at_hand() {
    let mut read = ReadState::with_capacity(30_000);
    let capacity = read.buffer().capacity();
    assert!(capacity >= 30_000);
    let lease = read.lend(4096);
    assert_eq!((lease.begin, lease.end), (0, capacity));
    assert_eq!(lease.buffer.capacity(), capacity);
    *read.buffer_mut() = lease.buffer;
    read.buffer_mut().extend_from_slice(&[1; 29_000]);
    let lease = read.lend(40_000);
    assert_eq!(lease.begin, 29_000);
    assert!(lease.end >= 69_000);
    assert_eq!(lease.buffer.capacity(), lease.end);
    assert_eq!(lease.buffer, &[1u8; 29_000][..]);
}

#[test]
fn bytes_stay_until_they_are_copied() {
    let mut read = ReadState::default();
    read.buffer_mut().extend_from_slice(&[1, 2, 3]);
    let capacity = read.buffer().capacity();
    assert!(matches!(read.read(2, ReadEvent::Start), ReadStep::Copy(2)));
    assert!(matches!(read.read(2, ReadEvent::Start), ReadStep::Copy(2)));
    assert_eq!(read.buffer(), &[1u8, 2, 3][..]);
    assert_eq!(read.front(0), &[0u8; 0][..]);
    assert_eq!(read.front(2), &[1u8, 2][..]);
    assert_eq!(read.front(9), &[1u8, 2, 3][..]);
    let step = read.read(2, ReadEvent::Copied);
    assert!(matches!(step, ReadStep::Done(Ok(2))));
    assert_eq!(read.buffer(), &[3u8][..]);
    assert_eq!(read.buffer().capacity(), capacity - 2);
    assert_eq!(read.state(), State::Framing(None));
}
