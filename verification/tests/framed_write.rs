use std::io;

use bytes::{BufMut, BytesMut};
use monoio_codec::write::{
    FlushEvent, FlushStep, Request, SendStep, ShutdownEvent, ShutdownStep, WriteEvent, WriteState,
    WriteStep, BACKPRESSURE_BOUNDARY,
};
use monoio_codec::{Encoder, FramedWrite, SinkWithCodec};

struct U32Encoder;

impl Encoder<u32> for U32Encoder {
    type Error = io::Error;

    fn encode(&mut self, item: u32, dst: &mut BytesMut) -> io::Result<()> {
        dst.put_u32(item);
        Ok(())
    }
}

/// What was done to a stream, and whether it goes well.
struct Wire {
    sent: Vec<u8>,
    flushes: usize,
    shut: bool,
    fail_write: bool,
    fail_flush: bool,
}

fn wire() -> Wire {
    Wire {
        sent: Vec::new(),
        flushes: 0,
        shut: false,
        fail_write: false,
        fail_flush: false,
    }
}

impl Wire {
    fn write_all(&mut self, data: &[u8]) -> io::Result<usize> {
        if self.fail_write {
            return Err(io::Error::new(io::ErrorKind::WriteZero, ""));
        }
        self.sent.extend_from_slice(data);
        Ok(data.len())
    }

    fn perform(&mut self, request: Request) -> FlushEvent {
        match request {
            Request::WriteAll(buffer) => {
                let result = self.write_all(&buffer);
                FlushEvent::Written(buffer, result)
            }
            Request::Flush => {
                self.flushes += 1;
                FlushEvent::Flushed(if self.fail_flush {
                    Err(io::Error::new(io::ErrorKind::BrokenPipe, ""))
                } else {
                    Ok(())
                })
            }
        }
    }
}

fn send<C: Encoder<Item>, Item>(
    framed: &mut FramedWrite<Wire, C>,
    item: Item,
) -> Result<(), C::Error> {
    let mut item = item;
    let mut event = FlushEvent::Start;
    loop {
        match framed.send(item, event) {
            SendStep::Done(result) => return result,
            SendStep::Io(request, kept) => {
                item = kept;
                event = framed.get_mut().perform(request);
            }
        }
    }
}

fn flush<C>(framed: &mut FramedWrite<Wire, C>) -> io::Result<()> {
    let mut event = FlushEvent::Start;
    loop {
        match framed.flush(event) {
            FlushStep::Done(result) => return result,
            FlushStep::Io(request) => event = framed.get_mut().perform(request),
        }
    }
}

fn write<C>(framed: &mut FramedWrite<Wire, C>, data: &[u8]) -> io::Result<usize> {
    let mut event = WriteEvent::Flush(FlushEvent::Start);
    loop {
        match framed.write(data, event) {
            WriteStep::Done(result) => return result,
            WriteStep::Io(request) => event = WriteEvent::Flush(framed.get_mut().perform(request)),
            WriteStep::Direct => event = WriteEvent::Direct(framed.get_mut().write_all(data)),
        }
    }
}

fn shutdown<C>(framed: &mut FramedWrite<Wire, C>) -> io::Result<()> {
    let mut event = ShutdownEvent::Flush(FlushEvent::Start);
    loop {
        match framed.shutdown(event) {
            ShutdownStep::Done(result) => return result,
            ShutdownStep::Io(request) => {
                event = ShutdownEvent::Flush(framed.get_mut().perform(request))
            }
            ShutdownStep::Shutdown => {
                framed.get_mut().shut = true;
                event = ShutdownEvent::Shutdown(Ok(()));
            }
        }
    }
}

#[test]
fn items_wait_in_the_buffer_until_flushed() {
    let mut framed = FramedWrite::new(wire(), U32Encoder);
    send(&mut framed, 1).unwrap();
    send(&mut framed, 0x0203).unwrap();
    assert_eq!(framed.write_buffer(), &[0u8, 0, 0, 1, 0, 0, 2, 3][..]);
    assert!(framed.get_ref().sent.is_empty());
    flush(&mut framed).unwrap();
    assert!(framed.write_buffer().is_empty());
    assert_eq!(framed.get_ref().sent, vec![0, 0, 0, 1, 0, 0, 2, 3]);
    assert_eq!(framed.get_ref().flushes, 1);
}

#[test]
fn empty_flush_is_silent() {
    let mut framed = FramedWrite::new(wire(), U32Encoder);
    flush(&mut framed).unwrap();
    assert_eq!(framed.get_ref().flushes, 0);
    assert!(framed.get_ref().sent.is_empty());
}

#[test]
fn backpressure_sends_before_encoding() {
    let mut framed = FramedWrite::new(wire(), U32Encoder);
    for i in 0..2048u32 {
        send(&mut framed, i).unwrap();
    }
    assert_eq!(framed.write_buffer().len(), BACKPRESSURE_BOUNDARY);
    assert!(framed.get_ref().sent.is_empty());
    send(&mut framed, 2048).unwrap();
    assert_eq!(framed.write_buffer(), &[0u8, 0, 8, 0][..]);
    assert_eq!(framed.get_ref().sent.len(), 8192);
    assert_eq!(framed.get_ref().flushes, 1);
}

#[test]
fn failed_flush_keeps_bytes() {
    let mut framed = FramedWrite::new(wire(), U32Encoder);
    send(&mut framed, 7).unwrap();
    framed.get_mut().fail_write = true;
    assert_eq!(flush(&mut framed).unwrap_err().kind(), io::ErrorKind::WriteZero);
    assert_eq!(framed.write_buffer(), &[0u8, 0, 0, 7][..]);
    assert_eq!(framed.get_ref().flushes, 0);
    framed.get_mut().fail_write = false;
    framed.get_mut().fail_flush = true;
    assert_eq!(flush(&mut framed).unwrap_err().kind(), io::ErrorKind::BrokenPipe);
    assert!(framed.write_buffer().is_empty());
    assert_eq!(framed.get_ref().sent, vec![0, 0, 0, 7]);
}

#[test]
fn failed_send_encodes_nothing() {
    let mut framed = FramedWrite::new(wire(), U32Encoder);
    framed.write_buffer_mut().extend_from_slice(&[9; 8192]);
    framed.get_mut().fail_write = true;
    assert_eq!(
        send(&mut framed, 1).unwrap_err().kind(),
        io::ErrorKind::WriteZero
    );
    assert_eq!(framed.write_buffer(), &[9u8; 8192][..]);
}

#[test]
fn encoder_error_is_returned() {
    struct Failing;
    impl Encoder<u32> for Failing {
        type Error = io::Error;

        fn encode(&mut self, _item: u32, _dst: &mut BytesMut) -> io::Result<()> {
            Err(io::Error::new(io::ErrorKind::InvalidInput, ""))
        }
    }
    let mut framed = FramedWrite::new(wire(), Failing);
    assert_eq!(
        send(&mut framed, 1).unwrap_err().kind(),
        io::ErrorKind::InvalidInput
    );
}

#[test]
fn small_writes_are_buffered() {
    let mut framed = FramedWrite::new(wire(), U32Encoder);
    assert_eq!(write(&mut framed, &[1, 2, 3]).unwrap(), 3);
    send(&mut framed, 4).unwrap();
    assert_eq!(write(&mut framed, &[5]).unwrap(), 1);
    assert_eq!(framed.write_buffer(), &[1u8, 2, 3, 0, 0, 0, 4, 5][..]);
    assert!(framed.get_ref().sent.is_empty());
}

#[test]
fn large_writes_follow_what_is_buffered() {
    let mut framed = FramedWrite::new(wire(), U32Encoder);
    assert_eq!(write(&mut framed, &[1, 2, 3]).unwrap(), 3);
    let data = vec![4; 8192];
    assert_eq!(write(&mut framed, &data).unwrap(), 8192);
    assert!(framed.write_buffer().is_empty());
    assert_eq!(framed.get_ref().sent[..3], [1, 2, 3]);
    assert_eq!(framed.get_ref().sent[3..], data[..]);
    assert_eq!(framed.get_ref().flushes, 1);
    // With nothing buffered there is nothing to flush.
    assert_eq!(write(&mut framed, &data).unwrap(), 8192);
    assert_eq!(framed.get_ref().flushes, 1);
    assert_eq!(framed.get_ref().sent.len(), 3 + 2 * 8192);
}

#[test]
fn write_on_a_full_buffer_is_direct() {
    let mut framed = FramedWrite::new(wire(), U32Encoder);
    framed.write_buffer_mut().extend_from_slice(&[1; 9000]);
    assert_eq!(write(&mut framed, &[2]).unwrap(), 1);
    assert!(framed.write_buffer().is_empty());
    assert_eq!(framed.get_ref().sent.len(), 9001);
    assert_eq!(framed.get_ref().sent[9000], 2);
}

#[test]
fn failed_write_is_reported() {
    let mut framed = FramedWrite::new(wire(), U32Encoder);
    framed.get_mut().fail_write = true;
    assert_eq!(
        write(&mut framed, &[0; 8192]).unwrap_err().kind(),
        io::ErrorKind::WriteZero
    );
    assert_eq!(write(&mut framed, &[1]).unwrap(), 1);
    assert_eq!(
        write(&mut framed, &[0; 8192]).unwrap_err().kind(),
        io::ErrorKind::WriteZero
    );
    assert_eq!(framed.write_buffer(), &[1u8][..]);
}

#[test]
fn append_takes_what_fits() {
    let mut write = WriteState::default();
    assert_eq!(write.append(&[1, 2, 3], 2), 2);
    assert_eq!(write.append(&[4, 5], 2), 2);
    assert_eq!(write.append(&[6], 9), 1);
    assert_eq!(write.append(&[7], 0), 0);
    assert_eq!(write.buffer(), &[1u8, 2, 4, 5, 6][..]);
}

#[test]
fn vectored_write_uses_the_first_area() {
    let mut write = WriteState::default();
    let step = write.writev(None, WriteEvent::Flush(FlushEvent::Start));
    assert!(matches!(step, WriteStep::Done(Ok(0))));
    let step = write.writev(Some(&[1, 2]), WriteEvent::Flush(FlushEvent::Start));
    assert!(matches!(step, WriteStep::Done(Ok(2))));
    assert_eq!(write.buffer(), &[1u8, 2][..]);
}

#[test]
fn shutdown_sends_all_first() {
    let mut framed = FramedWrite::new(wire(), U32Encoder);
    send(&mut framed, 5).unwrap();
    shutdown(&mut framed).unwrap();
    assert!(framed.get_ref().shut);
    assert_eq!(framed.get_ref().sent, vec![0, 0, 0, 5]);
}

#[test]
fn failed_flush_stops_shutdown() {
    let mut framed = FramedWrite::new(wire(), U32Encoder);
    send(&mut framed, 5).unwrap();
    framed.get_mut().fail_flush = true;
    assert_eq!(
        shutdown(&mut framed).unwrap_err().kind(),
        io::ErrorKind::BrokenPipe
    );
    assert!(!framed.get_ref().shut);
}

#[test]
fn failed_shutdown_is_reported() {
    let mut write = WriteState::default();
    let step = write.shutdown(ShutdownEvent::Flush(FlushEvent::Start));
    assert!(matches!(step, ShutdownStep::Shutdown));
    let error = io::Error::new(io::ErrorKind::NotConnected, "");
    match write.shutdown(ShutdownEvent::Shutdown(Err(error))) {
        ShutdownStep::Done(Err(e)) => assert_eq!(e.kind(), io::ErrorKind::NotConnected),
        other => panic!("{:?}", other),
    }
}

#[derive(Debug, PartialEq)]
struct MyError(io::ErrorKind);

impl From<io::Error> for MyError {
    fn from(e: io::Error) -> Self {
        MyError(e.kind())
    }
}

struct ByteEncoder;

impl Encoder<u8> for ByteEncoder {
    type Error = MyError;

    fn encode(&mut self, item: u8, dst: &mut BytesMut) -> Result<(), MyError> {
        dst.put_u8(item);
        Ok(())
    }
}

#[test]
fn sink_errors_are_converted() {
    let mut framed = FramedWrite::new((), U32Encoder);
    let error = io::Error::new(io::ErrorKind::WriteZero, "");
    let event = FlushEvent::Written(BytesMut::from(&[1u8, 2][..]), Err(error));
    let step = SinkWithCodec::<ByteEncoder, u8>::flush(&mut framed, event);
    match step {
        FlushStep::Done(Err(e)) => assert_eq!(e, MyError(io::ErrorKind::WriteZero)),
        FlushStep::Done(Ok(())) | FlushStep::Io(_) => panic!("not an error"),
    }
    assert_eq!(framed.write_buffer(), &[1u8, 2][..]);

    let error = io::Error::new(io::ErrorKind::BrokenPipe, "");
    let event = ShutdownEvent::Flush(FlushEvent::Flushed(Err(error)));
    match framed.close::<MyError>(event) {
        ShutdownStep::Done(Err(e)) => assert_eq!(e, MyError(io::ErrorKind::BrokenPipe)),
        _ => panic!("not an error"),
    }
    let step = framed.close::<MyError>(ShutdownEvent::Shutdown(Ok(())));
    assert!(matches!(step, ShutdownStep::Done(Ok(()))));
}

#[test]
fn custom_encoder_shares_the_stream() {
    let mut framed = FramedWrite::new((), U32Encoder);
    let step = framed.send(1, FlushEvent::Start);
    assert!(matches!(step, SendStep::Done(Ok(()))));
    let step = SinkWithCodec::send_with(&mut framed, &mut ByteEncoder, 2u8, FlushEvent::Start);
    assert!(matches!(step, SendStep::Done(Ok(()))));
    assert_eq!(framed.write_buffer(), &[0u8, 0, 0, 1, 2][..]);
}

#[test]
fn flush_keeps_memory() {
    let mut framed = FramedWrite::new(wire(), U32Encoder);
    framed.write_buffer_mut().reserve(50_000);
    let capacity = framed.write_buffer().capacity();
    assert!(capacity >= 50_000);
    send(&mut framed, 7).unwrap();
    framed.get_mut().fail_write = true;
    flush(&mut framed).unwrap_err();
    assert_eq!(framed.write_buffer().capacity(), capacity);
    framed.get_mut().fail_write = false;
    flush(&mut framed).unwrap();
    assert!(framed.write_buffer().is_empty());
    assert_eq!(framed.write_buffer().capacity(), capacity);
}

#[test]
fn small_writes_fill_the_memory_and_no_more() {
    let mut write = WriteState::default();
    let capacity = write.buffer().capacity();
    assert!(capacity >= 8192);
    let start = || WriteEvent::Flush(FlushEvent::Start);
    let step = write.write(&[1; 5000], start());
    assert!(matches!(step, WriteStep::Done(Ok(5000))));
    match write.write(&[2; 5000], start()) {
        WriteStep::Done(Ok(count)) => {
            assert_eq!(count, std::cmp::min(5000, capacity - 5000));
            assert_eq!(write.buffer().len(), 5000 + count);
        }
        other => panic!("{:?}", other),
    }
    assert_eq!(write.buffer().capacity(), capacity);
    // A buffer without room takes nothing.
    let mut full = WriteState::default();
    *full.buffer_mut() = BytesMut::new();
    let step = full.write(&[1], start());
    assert!(matches!(step, WriteStep::Done(Ok(0))));
    assert!(full.buffer().is_empty());
}

#[test]
fn fallible_encoder_keeps_order_of_what_succeeds() {
    /// Numbers its items and refuses zero.
    struct Numbering(u8);
    impl Encoder<u8> for Numbering {
        type Error = io::Error;

        fn encode(&mut self, item: u8, dst: &mut BytesMut) -> io::Result<()> {
            if item == 0 {
                return Err(io::Error::new(io::ErrorKind::InvalidInput, ""));
            }
            self.0 += 1;
            dst.put_slice(&[self.0, item]);
            Ok(())
        }
    }
    let mut framed = FramedWrite::new(wire(), Numbering(0));
    send(&mut framed, 9u8).unwrap();
    assert!(send(&mut framed, 0u8).is_err());
    assert_eq!(write(&mut framed, &[5, 5]).unwrap(), 2);
    flush(&mut framed).unwrap();
    send(&mut framed, 9u8).unwrap();
    assert_eq!(framed.get_ref().sent, vec![1, 9, 5, 5]);
    assert_eq!(framed.write_buffer(), &[2u8, 9][..]);
}
