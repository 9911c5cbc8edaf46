use std::collections::VecDeque;
use std::io;

use bytes::{Buf, BytesMut};
use monoio_codec::read::{FillEvent, Lease, NextStep, PeekStep, ReadEvent, ReadStep, State};
use monoio_codec::{Decoded, Decoder, FramedRead, StreamWithCodec};

struct U32Decoder;

impl Decoder for U32Decoder {
    type Item = u32;
    type Error = io::Error;

    fn decode(&mut self, buf: &mut BytesMut) -> io::Result<Decoded<u32>> {
        if buf.len() < 4 {
            return Ok(Decoded::Insufficient);
        }

        let n = buf.split_to(4).get_u32();
        Ok(Decoded::Frame(n))
    }
}

struct U64Decoder;

impl Decoder for U64Decoder {
    type Item = u64;
    type Error = io::Error;

    fn decode(&mut self, buf: &mut BytesMut) -> io::Result<Decoded<u64>> {
        if buf.len() < 8 {
            return Ok(Decoded::Insufficient);
        }

        let n = buf.split_to(8).get_u64();
        Ok(Decoded::Frame(n))
    }
}

/// An input whose reads are scripted; the end follows the last.
struct Mock {
    calls: VecDeque<io::Result<Vec<u8>>>,
    reads: usize,
}

fn mock(calls: Vec<io::Result<Vec<u8>>>) -> Mock {
    Mock {
        calls: VecDeque::from(calls),
        reads: 0,
    }
}

trait Input {
    fn read(&mut self, room: usize) -> io::Result<Vec<u8>>;
}

impl Input for Mock {
    fn read(&mut self, room: usize) -> io::Result<Vec<u8>> {
        self.reads += 1;
        match self.calls.pop_front() {
            Some(Ok(data)) => {
                assert!(room >= data.len());
                Ok(data)
            }
            Some(Err(e)) => Err(e),
            None => Ok(Vec::new()),
        }
    }
}

impl<'a> Input for &'a [u8] {
    fn read(&mut self, room: usize) -> io::Result<Vec<u8>> {
        let amt = std::cmp::min(self.len(), room);
        let (a, b) = self.split_at(amt);
        *self = b;
        Ok(a.to_vec())
    }
}

fn fill<IO: Input, C>(framed: &mut FramedRead<IO, C>, additional: usize) -> FillEvent {
    let Lease {
        mut buffer,
        begin,
        end,
    } = framed.lend(additional);
    assert_eq!(begin, buffer.len());
    assert_eq!(end, buffer.capacity());
    assert!(end - begin >= additional);
    match framed.get_mut().read(end - begin) {
        Ok(data) => {
            buffer.extend_from_slice(&data);
            FillEvent::Filled(buffer, Ok(data.len()))
        }
        Err(e) => FillEvent::Filled(buffer, Err(e)),
    }
}

fn next<IO: Input, C: Decoder>(
    framed: &mut FramedRead<IO, C>,
) -> Option<Result<C::Item, C::Error>> {
    let mut event = FillEvent::Start;
    loop {
        match framed.next(event) {
            NextStep::Ready(result) => return result,
            NextStep::Fill(additional) => event = fill(framed, additional),
        }
    }
}

fn next_with<IO: Input, A, C: Decoder>(
    framed: &mut FramedRead<IO, A>,
    codec: &mut C,
) -> Option<Result<C::Item, C::Error>> {
    let mut event = FillEvent::Start;
    loop {
        match StreamWithCodec::next_with(framed, codec, event) {
            NextStep::Ready(result) => return result,
            NextStep::Fill(additional) => event = fill(framed, additional),
        }
    }
}

fn peek<IO: Input, C>(framed: &mut FramedRead<IO, C>) -> io::Result<Vec<u8>> {
    let mut event = FillEvent::Start;
    loop {
        match framed.peek_data(event) {
            PeekStep::Done(Ok(())) => return Ok(framed.data_mut().to_vec()),
            PeekStep::Done(Err(e)) => return Err(e),
            PeekStep::Fill(additional) => event = fill(framed, additional),
        }
    }
}

fn assert_read_next<IO: Input, C: Decoder>(framed: &mut FramedRead<IO, C>, expected: C::Item)
where
    C::Item: PartialEq + std::fmt::Debug,
    C::Error: std::fmt::Debug,
{
    assert_eq!(next(framed).unwrap().unwrap(), expected);
}

fn assert_read_next_none<IO: Input, C: Decoder>(framed: &mut FramedRead<IO, C>) {
    assert!(next(framed).is_none());
}

fn assert_read_next_err<IO: Input, C: Decoder>(framed: &mut FramedRead<IO, C>) {
    assert!(next(framed).unwrap().is_err());
}

#[test]
fn read_multi_frame_in_packet() {
    let mock = mock(vec![Ok(
        b"\x00\x00\x00\x00\x00\x00\x00\x01\x00\x00\x00\x02".to_vec()
    )]);

    let mut framed = FramedRead::new(mock, U32Decoder);
    assert_read_next(&mut framed, 0);
    assert_read_next(&mut framed, 1);
    assert_read_next(&mut framed, 2);
    assert!(next(&mut framed).is_none());
}

#[test]
fn read_multi_frame_across_packets() {
    let mock = mock(vec![
        Ok(b"\x00\x00\x00\x00".to_vec()),
        Ok(b"\x00\x00\x00\x01".to_vec()),
        Ok(b"\x00\x00\x00\x02".to_vec()),
    ]);

    let mut framed = FramedRead::new(mock, U32Decoder);
    assert_read_next(&mut framed, 0);
    assert_read_next(&mut framed, 1);
    assert_read_next(&mut framed, 2);
    assert_read_next_none(&mut framed);
}

#[test]
fn read_multi_frame_in_packet_after_codec_changed() {
    let mock = mock(vec![Ok(
        b"\x00\x00\x00\x04\x00\x00\x00\x00\x00\x00\x00\x08".to_vec()
    )]);
    let mut framed = FramedRead::new(mock, U32Decoder);
    assert_read_next(&mut framed, 0x04);

    let mut framed = framed.map_decoder(|_| U64Decoder);
    assert_read_next(&mut framed, 0x08);
    assert_read_next_none(&mut framed);
}

#[test]
fn read_err() {
    let mock = mock(vec![Err(io::Error::new(io::ErrorKind::Other, ""))]);

    let mut framed = FramedRead::new(mock, U32Decoder);
    assert_eq!(
        next(&mut framed).unwrap().unwrap_err().kind(),
        io::ErrorKind::Other
    );
}

#[test]
fn read_partial_then_err() {
    let mock = mock(vec![
        Ok(b"\x00\x00".to_vec()),
        Err(io::Error::new(io::ErrorKind::Other, "")),
    ]);

    let mut framed = FramedRead::new(mock, U32Decoder);
    assert_eq!(
        next(&mut framed).unwrap().unwrap_err().kind(),
        io::ErrorKind::Other
    );
}

struct BigDecoder;

impl Decoder for BigDecoder {
    type Item = u32;
    type Error = io::Error;

    fn decode(&mut self, buf: &mut BytesMut) -> io::Result<Decoded<u32>> {
        if buf.len() < 32 * 1024 {
            return Ok(Decoded::Insufficient);
        }
        buf.advance(32 * 1024);
        Ok(Decoded::Frame(0))
    }
}

#[test]
fn huge_size() {
    let data = &[0; 32 * 1024][..];
    let mut framed = FramedRead::new(data, BigDecoder);

    assert_read_next(&mut framed, 0);
    assert_read_next_none(&mut framed);
}

#[test]
fn data_remaining_is_error() {
    let slice = &[0; 5][..];
    let mut framed = FramedRead::new(slice, U32Decoder);

    assert_read_next(&mut framed, 0);
    assert_read_next_err(&mut framed);
}

struct MyDecoder(Vec<u32>);

impl Decoder for MyDecoder {
    type Item = u32;
    type Error = io::Error;

    fn decode(&mut self, _buf: &mut BytesMut) -> io::Result<Decoded<u32>> {
        unreachable!();
    }

    fn decode_eof(&mut self, _buf: &mut BytesMut) -> io::Result<Decoded<u32>> {
        if self.0.is_empty() {
            return Ok(Decoded::Insufficient);
        }

        Ok(Decoded::Frame(self.0.remove(0)))
    }
}

#[test]
fn multi_frames_on_eof() {
    let mut framed = FramedRead::new(mock(vec![]), MyDecoder(vec![0, 1, 2, 3]));
    assert_read_next(&mut framed, 0);
    assert_read_next(&mut framed, 1);
    assert_read_next(&mut framed, 2);
    assert_read_next(&mut framed, 3);
    assert_read_next_none(&mut framed);
}

#[test]
fn read_eof_then_resume() {
    let mock = mock(vec![
        Ok(b"\x00\x00\x00\x01".to_vec()),
        Ok(b"".to_vec()),
        Ok(b"\x00\x00\x00\x02".to_vec()),
        Ok(b"".to_vec()),
        Ok(b"\x00\x00\x00\x03".to_vec()),
    ]);
    let mut framed = FramedRead::new(mock, U32Decoder);
    assert_read_next(&mut framed, 1);
    assert_read_next_none(&mut framed);
    assert_read_next(&mut framed, 2);
    assert_read_next_none(&mut framed);
    assert_read_next(&mut framed, 3);
    assert_read_next_none(&mut framed);
    assert_read_next_none(&mut framed);
}

#[test]
fn frames_do_not_depend_on_pieces() {
    let bytes: Vec<u8> = (0u8..24).collect();
    let mut whole = Vec::new();
    let mut framed = FramedRead::new(mock(vec![Ok(bytes.clone())]), U32Decoder);
    while let Some(frame) = next(&mut framed) {
        whole.push(frame.unwrap());
    }
    assert_eq!(
        whole,
        vec![0x00010203, 0x04050607, 0x08090a0b, 0x0c0d0e0f, 0x10111213, 0x14151617]
    );
    for size in 1..24 {
        let pieces = bytes.chunks(size).map(|piece| Ok(piece.to_vec())).collect();
        let mut framed = FramedRead::new(mock(pieces), U32Decoder);
        let mut found = Vec::new();
        while let Some(frame) = next(&mut framed) {
            found.push(frame.unwrap());
        }
        assert_eq!(found, whole);
    }
}

#[test]
fn error_then_end_then_read() {
    let mock = mock(vec![
        Ok(vec![0, 0]),
        Err(io::Error::new(io::ErrorKind::TimedOut, "late")),
        Ok(vec![0, 9]),
    ]);
    let mut framed = FramedRead::new(mock, U32Decoder);
    assert_eq!(
        next(&mut framed).unwrap().unwrap_err().kind(),
        io::ErrorKind::TimedOut
    );
    assert_eq!(framed.read_state(), State::Errored);
    assert_eq!(framed.read_buffer(), &[0u8, 0][..]);
    assert_eq!(framed.get_ref().reads, 2);
    // The end is reported at once, without another read.
    assert_read_next_none(&mut framed);
    assert_eq!(framed.read_state(), State::Paused);
    assert_eq!(framed.get_ref().reads, 2);
    // The bytes from before the error are still there.
    assert_read_next(&mut framed, 9);
    assert_eq!(framed.read_state(), State::Framing(None));
}

#[test]
fn decoder_error_is_returned() {
    struct Failing;
    impl Decoder for Failing {
        type Item = u32;
        type Error = io::Error;

        fn decode(&mut self, _buf: &mut BytesMut) -> io::Result<Decoded<u32>> {
            Err(io::Error::new(io::ErrorKind::InvalidData, "no frame"))
        }
    }
    let mut framed = FramedRead::new(mock(vec![Ok(vec![1, 2, 3])]), Failing);
    assert_eq!(
        next(&mut framed).unwrap().unwrap_err().kind(),
        io::ErrorKind::InvalidData
    );
    assert_eq!(framed.read_state(), State::Errored);
    assert_eq!(framed.read_buffer(), &[1u8, 2, 3][..]);
}

#[test]
fn leftover_error_names_the_cause() {
    let mut framed = FramedRead::new(mock(vec![Ok(vec![1, 2, 3])]), U32Decoder);
    let error = next(&mut framed).unwrap().unwrap_err();
    assert_eq!(error.kind(), io::ErrorKind::Other);
    assert_eq!(error.to_string(), "bytes remaining on stream");
    assert_eq!(framed.read_state(), State::Errored);
    assert_eq!(framed.read_buffer(), &[1u8, 2, 3][..]);
}

/// Frames of 20000 bytes, counting how often it is asked.
struct Counting {
    asked: usize,
}

impl Decoder for Counting {
    type Item = usize;
    type Error = io::Error;

    fn decode(&mut self, buf: &mut BytesMut) -> io::Result<Decoded<usize>> {
        self.asked += 1;
        if buf.len() < 20_000 {
            return Ok(Decoded::InsufficientAtLeast(20_000));
        }
        buf.advance(20_000);
        Ok(Decoded::Frame(20_000))
    }
}

#[test]
fn hint_sets_room_and_spares_the_decoder() {
    let mut framed = FramedRead::with_capacity((), Counting { asked: 0 }, 16);
    assert!(matches!(framed.next(FillEvent::Start), NextStep::Fill(4096)));
    assert_eq!(framed.decoder().asked, 0);

    let mut lease = framed.lend(4096);
    assert!(framed.read_buffer().is_empty());
    lease.buffer.extend_from_slice(&[7; 100]);
    let step = framed.next(FillEvent::Filled(lease.buffer, Ok(100)));
    assert!(matches!(step, NextStep::Fill(19_900)));
    assert_eq!(framed.decoder().asked, 1);
    assert_eq!(framed.read_state(), State::Framing(Some(20_000)));

    // Below the hint the decoder is not asked again.
    let mut lease = framed.lend(19_900);
    assert_eq!(lease.begin, 100);
    assert!(lease.end >= 20_000);
    lease.buffer.extend_from_slice(&[7; 18_000]);
    let step = framed.next(FillEvent::Filled(lease.buffer, Ok(18_000)));
    assert!(matches!(step, NextStep::Fill(4096)));
    assert_eq!(framed.decoder().asked, 1);

    let mut lease = framed.lend(4096);
    lease.buffer.extend_from_slice(&[7; 2_000]);
    let step = framed.next(FillEvent::Filled(lease.buffer, Ok(2_000)));
    assert!(matches!(step, NextStep::Ready(Some(Ok(20_000)))));
    assert_eq!(framed.decoder().asked, 2);
    // The hint does not outlive the call.
    assert_eq!(framed.read_state(), State::Framing(None));
    assert_eq!(framed.read_buffer(), &[7u8; 100][..]);
}

#[test]
fn custom_codec_shares_the_stream() {
    let mock = mock(vec![Ok(
        b"\x00\x00\x00\x04\x00\x00\x00\x00\x00\x00\x00\x08\x00\x00\x00\x05".to_vec(),
    )]);
    let mut framed = FramedRead::new(mock, U32Decoder);
    assert_read_next(&mut framed, 4);
    assert_eq!(next_with(&mut framed, &mut U64Decoder).unwrap().unwrap(), 8);
    assert_read_next(&mut framed, 5);
    assert!(next_with(&mut framed, &mut U64Decoder).is_none());
}

#[test]
fn peek_reads_only_where_nothing_is_at_hand() {
    let mock = mock(vec![
        Ok(vec![0, 0, 0]),
        Ok(vec![1, 0, 0, 0, 2]),
        Err(io::Error::new(io::ErrorKind::BrokenPipe, "")),
    ]);
    let mut framed = FramedRead::new(mock, U32Decoder);
    assert_eq!(peek(&mut framed).unwrap(), vec![0, 0, 0]);
    assert_eq!(framed.get_ref().reads, 1);
    assert_eq!(peek(&mut framed).unwrap(), vec![0, 0, 0]);
    assert_eq!(framed.get_ref().reads, 1);
    assert_eq!(framed.read_state(), State::Framing(None));
    assert_read_next(&mut framed, 1);
    assert_read_next(&mut framed, 2);
    assert_eq!(
        peek(&mut framed).unwrap_err().kind(),
        io::ErrorKind::BrokenPipe
    );
    assert_eq!(framed.read_state(), State::Errored);
}

#[test]
fn peek_at_the_end_pauses() {
    let mut framed = FramedRead::new(mock(vec![]), U32Decoder);
    assert_eq!(peek(&mut framed).unwrap(), Vec::<u8>::new());
    assert_eq!(framed.read_state(), State::Paused);
}

#[test]
fn peeked_data_can_be_changed() {
    let mut framed = FramedRead::new(mock(vec![Ok(vec![0, 0, 0, 1])]), U32Decoder);
    peek(&mut framed).unwrap();
    framed.data_mut()[3] = 6;
    assert_read_next(&mut framed, 6);
}

#[test]
fn errors_are_converted() {
    #[derive(Debug, PartialEq)]
    struct MyError(io::ErrorKind);
    impl From<io::Error> for MyError {
        fn from(e: io::Error) -> Self {
            MyError(e.kind())
        }
    }
    struct Plain;
    impl Decoder for Plain {
        type Item = u8;
        type Error = MyError;

        fn decode(&mut self, _buf: &mut BytesMut) -> Result<Decoded<u8>, MyError> {
            Ok(Decoded::Insufficient)
        }
    }
    let mock = mock(vec![Err(io::Error::new(io::ErrorKind::NotFound, ""))]);
    let mut framed = FramedRead::new(mock, Plain);
    assert_eq!(
        next(&mut framed).unwrap().unwrap_err(),
        MyError(io::ErrorKind::NotFound)
    );
}

/// A frame is a length below 255 and so many bytes; the length 255 is refused.
/// Keeps all that it took out.
#[derive(Default)]
struct Picky {
    taken: Vec<u8>,
}

impl Decoder for Picky {
    type Item = Vec<u8>;
    type Error = io::Error;

    fn decode(&mut self, buf: &mut BytesMut) -> io::Result<Decoded<Vec<u8>>> {
        let len = match buf.first() {
            None => return Ok(Decoded::Insufficient),
            Some(255) => return Err(io::Error::new(io::ErrorKind::InvalidData, "length")),
            Some(len) => *len as usize,
        };
        if buf.len() < 1 + len {
            return Ok(Decoded::InsufficientAtLeast(1 + len));
        }
        let frame = buf.split_to(1 + len);
        self.taken.extend_from_slice(&frame);
        Ok(Decoded::Frame(frame[1..].to_vec()))
    }
}

#[test]
fn refusal_comes_behind_the_frames() {
    let bytes = vec![1, 7, 2, 8, 9, 0, 255, 1, 1];
    for size in 1..10 {
        let pieces = bytes.chunks(size).map(|piece| Ok(piece.to_vec())).collect();
        let mut framed = FramedRead::new(mock(pieces), Picky::default());
        assert_read_next(&mut framed, vec![7]);
        assert_read_next(&mut framed, vec![8, 9]);
        assert_read_next(&mut framed, vec![]);
        assert_eq!(
            next(&mut framed).unwrap().unwrap_err().kind(),
            io::ErrorKind::InvalidData
        );
        assert_eq!(framed.read_state(), State::Errored);
        assert_eq!(framed.read_buffer()[0], 255);
        assert_read_next_none(&mut framed);
        assert_eq!(framed.read_state(), State::Paused);
    }
}

#[test]
fn refusal_at_the_end_is_returned() {
    struct Strict;
    impl Decoder for Strict {
        type Item = u8;
        type Error = io::Error;

        fn decode(&mut self, buf: &mut BytesMut) -> io::Result<Decoded<u8>> {
            if buf.is_empty() {
                return Err(io::Error::new(io::ErrorKind::UnexpectedEof, ""));
            }
            Ok(Decoded::Frame(buf.get_u8()))
        }
    }
    let mut framed = FramedRead::new(mock(vec![Ok(vec![5])]), Strict);
    assert_read_next(&mut framed, 5);
    assert_eq!(
        next(&mut framed).unwrap().unwrap_err().kind(),
        io::ErrorKind::UnexpectedEof
    );
    assert_eq!(framed.read_state(), State::Errored);
}

#[test]
fn framed_calls_lose_nothing() {
    let mock = mock(vec![
        Ok(vec![1, 7, 3, 4]),
        Err(io::Error::new(io::ErrorKind::TimedOut, "")),
        Ok(vec![5]),
        Ok(vec![6, 0, 255]),
        Ok(vec![9]),
    ]);
    let mut framed = FramedRead::new(mock, Picky::default());
    let read = [1u8, 7, 3, 4, 5, 6, 0, 255, 9];
    let brought = [4, 4, 4, 8, 8, 8, 8, 9];
    for count in brought {
        let _ = next(&mut framed);
        let mut all = framed.decoder().taken.clone();
        all.extend_from_slice(framed.read_buffer());
        assert_eq!(all, &read[..count]);
    }
    assert_eq!(framed.decoder().taken, vec![1, 7, 3, 4, 5, 6, 0]);
}

#[test]
fn uses_of_every_kind_keep_order() {
    let mock = mock(vec![
        Ok(vec![1, 7, 20, 21, 22]),
        Ok(vec![1, 8, 30]),
        Err(io::Error::new(io::ErrorKind::TimedOut, "")),
        Ok(vec![2, 9, 9]),
    ]);
    let mut framed = FramedRead::new(mock, Picky::default());
    assert_read_next(&mut framed, vec![7]);
    assert_eq!(peek(&mut framed).unwrap(), vec![20, 21, 22]);
    assert!(matches!(framed.read(5, ReadEvent::Start), ReadStep::Copy(3)));
    assert_eq!(framed.front(3), &[20u8, 21, 22][..]);
    assert!(matches!(framed.read(5, ReadEvent::Copied), ReadStep::Done(Ok(3))));
    assert_eq!(peek(&mut framed).unwrap(), vec![1, 8, 30]);
    assert_read_next(&mut framed, vec![8]);
    assert!(matches!(framed.read(1, ReadEvent::Start), ReadStep::Copy(1)));
    assert_eq!(framed.front(1), &[30u8][..]);
    assert!(matches!(framed.read(1, ReadEvent::Copied), ReadStep::Done(Ok(1))));
    assert!(peek(&mut framed).is_err());
    assert_read_next_none(&mut framed);
    assert_read_next(&mut framed, vec![9, 9]);
    assert_read_next_none(&mut framed);
}

#[test]
fn peek_leaves_the_next_call_alone() {
    let mut plain = FramedRead::new((), Counting { asked: 0 });
    let mut peeked = FramedRead::new((), Counting { asked: 0 });
    assert!(matches!(plain.next(FillEvent::Start), NextStep::Fill(4096)));
    assert!(matches!(peeked.peek_data(FillEvent::Start), PeekStep::Fill(4096)));
    let mut buffer = plain.lend(4096).buffer;
    buffer.extend_from_slice(&[7; 50]);
    let step = plain.next(FillEvent::Filled(buffer, Ok(50)));
    assert!(matches!(step, NextStep::Fill(19_950)));
    let mut buffer = peeked.lend(4096).buffer;
    buffer.extend_from_slice(&[7; 50]);
    let step = peeked.peek_data(FillEvent::Filled(buffer, Ok(50)));
    assert!(matches!(step, PeekStep::Done(Ok(()))));
    assert_eq!(peeked.decoder().asked, 0);
    assert!(matches!(peeked.next(FillEvent::Start), NextStep::Fill(19_950)));
    assert_eq!(peeked.decoder().asked, plain.decoder().asked);
    assert_eq!(peeked.read_state(), plain.read_state());
    assert_eq!(peeked.read_buffer(), plain.read_buffer());
}
