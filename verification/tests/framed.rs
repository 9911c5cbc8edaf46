use std::io;

use bytes::{Buf, BufMut, BytesMut};
use monoio_codec::read::{FillEvent, NextStep, State};
use monoio_codec::write::{FlushEvent, FlushStep, Request, SendStep};
use monoio_codec::{Decoded, Decoder, Encoder, Framed, FramedInner, FramedRead, FramedWrite};

/// A byte count, then so many bytes.
#[derive(Debug, PartialEq)]
struct Counted(u8);

impl Decoder for Counted {
    type Item = Vec<u8>;
    type Error = io::Error;

    fn decode(&mut self, src: &mut BytesMut) -> io::Result<Decoded<Vec<u8>>> {
        if src.is_empty() {
            return Ok(Decoded::Insufficient);
        }
        let size = 1 + src[0] as usize;
        if src.len() < size {
            return Ok(Decoded::InsufficientAtLeast(size));
        }
        let mut frame = src.split_to(size);
        frame.advance(1);
        Ok(Decoded::Frame(frame.to_vec()))
    }
}

impl Encoder<Vec<u8>> for Counted {
    type Error = io::Error;

    fn encode(&mut self, item: Vec<u8>, dst: &mut BytesMut) -> io::Result<()> {
        dst.put_u8(item.len() as u8);
        dst.extend_from_slice(&item);
        Ok(())
    }
}

#[test]
fn inner_holds_what_it_was_made_of() {
    let inner = FramedInner::new(1, 'c', "state");
    assert_eq!((inner.io, inner.codec, inner.state), (1, 'c', "state"));
}

#[test]
fn framed_lends_its_parts() {
    let mut framed = Framed::new(5, Counted(1));
    assert_eq!(*framed.get_ref(), 5);
    *framed.get_mut() += 1;
    assert_eq!(framed.codec(), &Counted(1));
    framed.codec_mut().0 = 2;
    framed.read_buffer_mut().extend_from_slice(b"read");
    framed.write_buffer_mut().extend_from_slice(b"write");
    assert_eq!(framed.read_buffer(), &b"read"[..]);
    assert_eq!(framed.write_buffer(), &b"write"[..]);
    assert_eq!(framed.read_state(), State::Framing(None));
    {
        let (io, buffer) = framed.read_state_mut();
        *io += 1;
        buffer.advance(2);
    }
    let framed = framed.map_codec(|codec| codec.0 as u64 + 1);
    assert_eq!(*framed.codec(), 3);
    assert_eq!(framed.read_buffer(), &b"ad"[..]);
    assert_eq!(framed.write_buffer(), &b"write"[..]);
    assert_eq!(framed.into_inner(), 7);
}

#[test]
fn framed_read_lends_its_parts() {
    let mut framed = FramedRead::with_capacity(5, Counted(1), 100);
    assert!(framed.read_buffer().capacity() >= 100);
    *framed.get_mut() += 1;
    framed.decoder_mut().0 = 9;
    assert_eq!(framed.decoder(), &Counted(9));
    framed.read_buffer_mut().extend_from_slice(b"abc");
    {
        let (io, buffer) = framed.read_state_mut();
        *io += 1;
        buffer.advance(1);
    }
    let framed = framed.map_decoder(|decoder| decoder.0);
    assert_eq!(*framed.decoder(), 9);
    assert_eq!(framed.read_buffer(), &b"bc"[..]);
    assert_eq!(*framed.get_ref(), 7);
    assert_eq!(framed.into_inner(), 7);
}

#[test]
fn framed_write_lends_its_parts() {
    let mut framed = FramedWrite::new(5, Counted(1));
    assert!(framed.write_buffer().capacity() >= 8192);
    *framed.get_mut() += 1;
    framed.encoder_mut().0 = 9;
    assert_eq!(framed.encoder(), &Counted(9));
    framed.write_buffer_mut().extend_from_slice(b"abc");
    let framed = framed.map_encoder(|encoder| encoder.0);
    assert_eq!(*framed.encoder(), 9);
    assert_eq!(framed.write_buffer(), &b"abc"[..]);
    assert_eq!(*framed.get_ref(), 6);
    assert_eq!(framed.into_inner(), 6);
}

#[test]
fn halves_do_not_disturb_each_other() {
    let mut framed = Framed::with_capacity((), Counted(0), 64);
    framed.read_buffer_mut().extend_from_slice(&[2, b'h', b'i']);
    let step = framed.send(vec![1, 2, 3], FlushEvent::Start);
    assert!(matches!(step, SendStep::Done(Ok(()))));
    assert_eq!(framed.read_buffer(), &[2u8, b'h', b'i'][..]);
    match framed.next(FillEvent::Start) {
        NextStep::Ready(Some(Ok(frame))) => assert_eq!(frame, b"hi"),
        _ => panic!("no frame"),
    }
    assert_eq!(framed.write_buffer(), &[3u8, 1, 2, 3][..]);
}

#[test]
fn round_trip() {
    let items: Vec<Vec<u8>> = (0..40u8).map(|n| vec![n; n as usize * 5]).collect();
    let mut sender = Framed::new((), Counted(0));
    for item in &items {
        let step = sender.send(item.clone(), FlushEvent::Start);
        assert!(matches!(step, SendStep::Done(Ok(()))));
    }
    let wire = match sender.flush(FlushEvent::Start) {
        FlushStep::Io(Request::WriteAll(buffer)) => buffer.to_vec(),
        _ => panic!("nothing to send"),
    };
    for size in [1, 7, 100, 5000] {
        let mut pieces = wire.chunks(size);
        let mut receiver = FramedRead::new((), Counted(0));
        let mut found = Vec::new();
        let mut event = FillEvent::Start;
        loop {
            match receiver.next(event) {
                NextStep::Ready(Some(frame)) => {
                    found.push(frame.unwrap());
                    event = FillEvent::Start;
                }
                NextStep::Ready(None) => break,
                NextStep::Fill(additional) => {
                    let mut buffer = receiver.lend(additional).buffer;
                    let piece = pieces.next().unwrap_or(&[]);
                    buffer.extend_from_slice(piece);
                    event = FillEvent::Filled(buffer, Ok(piece.len()));
                }
            }
        }
        assert_eq!(found, items);
        assert_eq!(receiver.read_state(), State::Paused);
    }
}

#[test]
fn capacity_is_for_reading() {
    let framed = Framed::with_capacity((), Counted(0), 100_000);
    assert!(framed.read_buffer().is_empty() && framed.write_buffer().is_empty());
    assert!(framed.read_buffer().capacity() >= 100_000);
    assert!(framed.write_buffer().capacity() >= 8192);
    let framed = Framed::with_capacity((), Counted(0), 0);
    assert!(framed.write_buffer().capacity() >= 8192);
    let framed = Framed::new((), Counted(0));
    assert!(framed.read_buffer().capacity() >= 8192);
    assert!(framed.write_buffer().capacity() >= 8192);
}

#[test]
fn mapping_keeps_the_buffers() {
    let mut framed = Framed::with_capacity((), Counted(0), 20_000);
    framed.read_buffer_mut().extend_from_slice(b"abc");
    let before = (framed.read_buffer().capacity(), framed.write_buffer().capacity());
    let framed = framed.map_codec(|_| ());
    let after = (framed.read_buffer().capacity(), framed.write_buffer().capacity());
    assert_eq!(before, after);
}
