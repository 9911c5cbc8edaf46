//! The writing half: what to keep in the buffer, and what to send when.
//!
//! As in reading, nothing waits. An operation is driven by events: the first
//! call says that it starts, and where a step asks for output, the caller
//! performs it and calls again with what came of it.
use vstd::prelude::*;
use bytes::BytesMut;
use crate::buffer::{content, may_hold, room_grows_to, same_room, take};
use crate::read::INITIAL_CAPACITY;
use crate::sync_codec::{convert, converted, Encoder};

verus! {

/// The number of buffered bytes from which they are sent before others are
/// added.
pub const BACKPRESSURE_BOUNDARY: usize = INITIAL_CAPACITY;

/// Output that an operation needs done.
#[derive(Debug)]
pub enum Request {
    /// Write all of the buffer, and give it back with the result.
    WriteAll(BytesMut),
    /// Flush the stream.
    Flush,
}

/// What happened since the last step of an operation that sends what is
/// buffered.
#[derive(Debug)]
pub enum FlushEvent {
    /// The operation starts.
    Start,
    /// Writing the whole buffer ended; the buffer comes back with its result.
    Written(BytesMut, Result<usize, std::io::Error>),
    /// Flushing the stream ended.
    Flushed(Result<(), std::io::Error>),
}

/// What [`WriteState::flush`] asks for or has come to.
#[derive(Debug)]
pub enum FlushStep<E> {
    Io(Request),
    Done(Result<(), E>),
}

/// What happened since the last step of [`WriteState::write`].
#[derive(Debug)]
pub enum WriteEvent {
    /// The operation starts, or is sending what is buffered.
    Flush(FlushEvent),
    /// Writing the caller's bytes ended.
    Direct(Result<usize, std::io::Error>),
}

/// What [`WriteState::write`] asks for or has come to.
#[derive(Debug)]
pub enum WriteStep {
    Io(Request),
    /// Write all of the caller's bytes, straight from the caller's memory.
    Direct,
    /// So many of the caller's bytes were taken, or sending failed.
    Done(Result<usize, std::io::Error>),
}

/// What [`WriteState::send_with`] asks for or has come to. While output is
/// under way the item is in the caller's keeping.
#[derive(Debug)]
pub enum SendStep<Item, E> {
    Io(Request, Item),
    Done(Result<(), E>),
}

/// What happened since the last step of [`WriteState::shutdown`].
#[derive(Debug)]
pub enum ShutdownEvent {
    /// The operation starts, or is sending what is buffered.
    Flush(FlushEvent),
    /// Shutting the stream down ended.
    Shutdown(Result<(), std::io::Error>),
}

/// What [`WriteState::shutdown`] asks for or has come to.
#[derive(Debug)]
pub enum ShutdownStep<E> {
    Io(Request),
    /// Shut the stream down.
    Shutdown,
    Done(Result<(), E>),
}

/// The buffer of the writing half, which holds the bytes not yet sent.
#[derive(Debug)]
pub struct WriteState {
    buffer: BytesMut,
}

impl View for WriteState {
    type V = Seq<u8>;

    open spec fn view(&self) -> Seq<u8> {
        content(self.held())
    }
}

impl WriteState {
    /// The buffer of bytes not yet sent.
    pub closed spec fn held(self) -> BytesMut {
        self.buffer
    }

    /// The memory of the buffer may have room for `capacity` bytes.
    #[verifier::inline]
    pub open spec fn may_hold(self, capacity: usize) -> bool {
        may_hold(self.held(), capacity)
    }
}

/// The buffer `pre` is handed out to be written whole, and one that holds nothing
/// is left in its place.
pub open spec fn hands_out(pre: BytesMut, post: BytesMut, request: Request) -> bool {
    &&& request == Request::WriteAll(pre)
    &&& content(post) == Seq::<u8>::empty()
}

/// The buffer that came back is kept and emptied; it does not lose its memory.
pub open spec fn keeps_emptied(back: BytesMut, post: BytesMut) -> bool {
    &&& content(post) == Seq::<u8>::empty()
    &&& same_room(back, post)
}

/// What a step of [`WriteState::flush`] does.
pub open spec fn flush_does(
    pre: BytesMut,
    event: FlushEvent,
    post: BytesMut,
    step: FlushStep<std::io::Error>,
) -> bool {
    match event {
        FlushEvent::Start => if content(pre).len() == 0 {
            &&& post == pre
            &&& step == FlushStep::<std::io::Error>::Done(Ok(()))
        } else {
            step matches FlushStep::Io(request) && hands_out(pre, post, request)
        },
        FlushEvent::Written(buffer, Err(cause)) => {
            &&& post == buffer
            &&& step == FlushStep::Done(Err(cause))
        },
        FlushEvent::Written(buffer, Ok(_)) => {
            &&& keeps_emptied(buffer, post)
            &&& step == FlushStep::<std::io::Error>::Io(Request::Flush)
        },
        FlushEvent::Flushed(result) => {
            &&& post == pre
            &&& step == FlushStep::Done(result)
        },
    }
}

/// `step` is `plain`, with an error converted.
pub open spec fn flush_as<E: From<std::io::Error>>(
    plain: FlushStep<std::io::Error>,
    step: FlushStep<E>,
) -> bool {
    match plain {
        FlushStep::Io(request) => step == FlushStep::<E>::Io(request),
        FlushStep::Done(Ok(())) => step == FlushStep::<E>::Done(Ok(())),
        FlushStep::Done(Err(cause)) => step matches FlushStep::Done(Err(error)) && converted(
            cause,
            error,
        ),
    }
}

/// What a step of [`WriteState::flush_sink`] does.
pub open spec fn flush_sink_does<E: From<std::io::Error>>(
    pre: BytesMut,
    event: FlushEvent,
    post: BytesMut,
    step: FlushStep<E>,
) -> bool {
    exists|plain: FlushStep<std::io::Error>|
        {
            &&& #[trigger] flush_does(pre, event, post, plain)
            &&& flush_as(plain, step)
        }
}

/// How many of `len` bytes there is `room` for.
pub open spec fn fitting(len: nat, room: usize) -> nat {
    if len < room {
        len
    } else {
        room as nat
    }
}

/// As much of `data` is added to the buffer as its memory has room for, and that
/// much is reported. No more memory is taken.
pub open spec fn adds_what_fits(
    pre: BytesMut,
    data: Seq<u8>,
    post: BytesMut,
    step: WriteStep,
) -> bool {
    exists|capacity: usize|
        {
            let count = fitting(data.len(), (capacity - content(pre).len()) as usize);
            &&& #[trigger] may_hold(pre, capacity)
            &&& content(pre).len() <= capacity
            &&& step == WriteStep::Done(Ok(count as usize))
            &&& content(post) == content(pre) + data.take(count as int)
            &&& same_room(pre, post)
        }
}

/// What a step of [`WriteState::write`] of `data` does.
pub open spec fn write_does(
    pre: BytesMut,
    data: Seq<u8>,
    event: WriteEvent,
    post: BytesMut,
    step: WriteStep,
) -> bool {
    match event {
        WriteEvent::Flush(FlushEvent::Start) => if content(pre).len() >= BACKPRESSURE_BOUNDARY
            || data.len() >= INITIAL_CAPACITY {
            if content(pre).len() == 0 {
                &&& post == pre
                &&& step == WriteStep::Direct
            } else {
                step matches WriteStep::Io(request) && hands_out(pre, post, request)
            }
        } else {
            adds_what_fits(pre, data, post, step)
        },
        WriteEvent::Flush(FlushEvent::Written(buffer, Err(cause))) => {
            &&& post == buffer
            &&& step == WriteStep::Done(Err(cause))
        },
        WriteEvent::Flush(FlushEvent::Written(buffer, Ok(_))) => {
            &&& keeps_emptied(buffer, post)
            &&& step == WriteStep::Io(Request::Flush)
        },
        WriteEvent::Flush(FlushEvent::Flushed(result)) => {
            &&& post == pre
            &&& step == match result {
                Ok(_) => WriteStep::Direct,
                Err(cause) => WriteStep::Done(Err(cause)),
            }
        },
        WriteEvent::Direct(result) => {
            &&& post == pre
            &&& step == WriteStep::Done(result)
        },
    }
}

/// What a step of [`WriteState::writev`] does, where `slot` is the first of the
/// caller's memory areas, if there is one.
pub open spec fn writev_does(
    pre: BytesMut,
    slot: Option<Seq<u8>>,
    event: WriteEvent,
    post: BytesMut,
    step: WriteStep,
) -> bool {
    match slot {
        None => post == pre && step == WriteStep::Done(Ok(0)),
        Some(data) => write_does(pre, data, event, post, step),
    }
}

/// The item is encoded behind what is buffered, and the outcome is final.
pub open spec fn encodes_last<C: Encoder<Item>, Item>(
    pre: BytesMut,
    codec: C,
    item: Item,
    post: BytesMut,
    codec_after: C,
    step: SendStep<Item, C::Error>,
) -> bool {
    step matches SendStep::Done(result) && C::encodes(codec, item, pre, codec_after, post, result)
}

/// What a step of [`WriteState::send_with`] does.
pub open spec fn send_does<C: Encoder<Item>, Item>(
    pre: BytesMut,
    codec: C,
    item: Item,
    event: FlushEvent,
    post: BytesMut,
    codec_after: C,
    step: SendStep<Item, C::Error>,
) -> bool {
    match event {
        FlushEvent::Start => if content(pre).len() >= BACKPRESSURE_BOUNDARY {
            &&& codec_after == codec
            &&& step matches SendStep::Io(request, kept) && hands_out(pre, post, request) && kept
                == item
        } else {
            encodes_last(pre, codec, item, post, codec_after, step)
        },
        FlushEvent::Written(buffer, Err(cause)) => {
            &&& post == buffer
            &&& codec_after == codec
            &&& step matches SendStep::Done(Err(error)) && converted(cause, error)
        },
        FlushEvent::Written(buffer, Ok(_)) => {
            &&& keeps_emptied(buffer, post)
            &&& codec_after == codec
            &&& step == SendStep::<Item, C::Error>::Io(Request::Flush, item)
        },
        FlushEvent::Flushed(Err(cause)) => {
            &&& post == pre
            &&& codec_after == codec
            &&& step matches SendStep::Done(Err(error)) && converted(cause, error)
        },
        FlushEvent::Flushed(Ok(_)) => encodes_last(pre, codec, item, post, codec_after, step),
    }
}

/// What a step of [`WriteState::shutdown`] does.
pub open spec fn shutdown_does(
    pre: BytesMut,
    event: ShutdownEvent,
    post: BytesMut,
    step: ShutdownStep<std::io::Error>,
) -> bool {
    match event {
        ShutdownEvent::Flush(FlushEvent::Start) => if content(pre).len() == 0 {
            &&& post == pre
            &&& step == ShutdownStep::<std::io::Error>::Shutdown
        } else {
            step matches ShutdownStep::Io(request) && hands_out(pre, post, request)
        },
        ShutdownEvent::Flush(FlushEvent::Written(buffer, Err(cause))) => {
            &&& post == buffer
            &&& step == ShutdownStep::Done(Err(cause))
        },
        ShutdownEvent::Flush(FlushEvent::Written(buffer, Ok(_))) => {
            &&& keeps_emptied(buffer, post)
            &&& step == ShutdownStep::<std::io::Error>::Io(Request::Flush)
        },
        ShutdownEvent::Flush(FlushEvent::Flushed(result)) => {
            &&& post == pre
            &&& step == match result {
                Ok(_) => ShutdownStep::<std::io::Error>::Shutdown,
                Err(cause) => ShutdownStep::Done(Err(cause)),
            }
        },
        ShutdownEvent::Shutdown(result) => {
            &&& post == pre
            &&& step == ShutdownStep::Done(result)
        },
    }
}

/// `step` is `plain`, with an error converted.
pub open spec fn shutdown_as<E: From<std::io::Error>>(
    plain: ShutdownStep<std::io::Error>,
    step: ShutdownStep<E>,
) -> bool {
    match plain {
        ShutdownStep::Io(request) => step == ShutdownStep::<E>::Io(request),
        ShutdownStep::Shutdown => step == ShutdownStep::<E>::Shutdown,
        ShutdownStep::Done(Ok(())) => step == ShutdownStep::<E>::Done(Ok(())),
        ShutdownStep::Done(Err(cause)) => step matches ShutdownStep::Done(Err(error))
            && converted(cause, error),
    }
}

/// What a step of [`WriteState::close`] does.
pub open spec fn close_does<E: From<std::io::Error>>(
    pre: BytesMut,
    event: ShutdownEvent,
    post: BytesMut,
    step: ShutdownStep<E>,
) -> bool {
    exists|plain: ShutdownStep<std::io::Error>|
        {
            &&& #[trigger] shutdown_does(pre, event, post, plain)
            &&& shutdown_as(plain, step)
        }
}

impl Default for WriteState {
    /// An empty buffer of the usual size.
    fn default() -> (write: Self)
        ensures
            write@ == Seq::<u8>::empty(),
            forall|room: usize| #[trigger] write.may_hold(room) ==> INITIAL_CAPACITY <= room,
    {
        WriteState { buffer: BytesMut::with_capacity(INITIAL_CAPACITY) }
    }
}

impl WriteState {
    /// One step of sending what is buffered. Should writing fail, the buffer is
    /// kept as it came back.
    pub fn flush(&mut self, event: FlushEvent) -> (step: FlushStep<std::io::Error>)
        ensures
            flush_does(old(self).held(), event, final(self).held(), step),
    {
        match event {
            FlushEvent::Start => if self.buffer.is_empty() {
                FlushStep::Done(Ok(()))
            } else {
                FlushStep::Io(Request::WriteAll(take(&mut self.buffer)))
            },
            FlushEvent::Written(buffer, result) => {
                self.buffer = buffer;
                match result {
                    Err(cause) => FlushStep::Done(Err(cause)),
                    Ok(_) => {
                        self.buffer.clear();
                        FlushStep::Io(Request::Flush)
                    },
                }
            },
            FlushEvent::Flushed(result) => FlushStep::Done(result),
        }
    }

    /// One step of sending what is buffered, for a sink with errors of its own.
    pub fn flush_sink<E: From<std::io::Error>>(&mut self, event: FlushEvent) -> (step: FlushStep<E>)
        ensures
            flush_sink_does(old(self).held(), event, final(self).held(), step),
    {
        let plain = self.flush(event);
        let ghost sent = plain;
        let step = match plain {
            FlushStep::Io(request) => FlushStep::Io(request),
            FlushStep::Done(Ok(())) => FlushStep::Done(Ok(())),
            FlushStep::Done(Err(cause)) => FlushStep::Done(Err(convert(cause))),
        };
        assert(flush_as(sent, step));
        step
    }

    /// Appends as much of `data` as there is `room` for, and tells how much that
    /// is. Where the memory at hand has that room, no more is taken.
    pub fn append(&mut self, data: &[u8], room: usize) -> (count: usize)
        requires
            old(self)@.len() + fitting(data@.len(), room) <= isize::MAX,
        ensures
            count == fitting(data@.len(), room),
            final(self)@ == old(self)@ + data@.take(count as int),
            room_grows_to(old(self).held(), final(self).held(), old(self)@.len() + count),
    {
        let count: usize = if data.len() < room {
            data.len()
        } else {
            room
        };
        self.buffer.extend_from_slice(&data[0..count]);
        assert(data@.subrange(0, count as int) =~= data@.take(count as int));
        count
    }

    /// Buffers as much of `data` as the memory at hand has room for.
    fn add_what_fits(&mut self, data: &[u8]) -> (step: WriteStep)
        requires
            old(self)@.len() + data@.len() <= isize::MAX,
        ensures
            adds_what_fits(old(self).held(), data@, final(self).held(), step),
    {
        let room: usize = self.buffer.capacity() - self.buffer.len();
        WriteStep::Done(Ok(self.append(data, room)))
    }

    /// One step of an unframed write. Small writes are buffered, as far as the
    /// buffer has room; before a large one, or if much is buffered, the buffer
    /// is sent first.
    pub fn write(&mut self, data: &[u8], event: WriteEvent) -> (step: WriteStep)
        ensures
            write_does(old(self).held(), data@, event, final(self).held(), step),
    {
        match event {
            WriteEvent::Flush(event) => {
                let starts = match &event {
                    FlushEvent::Start => true,
                    _ => false,
                };
                if starts && self.buffer.len() < BACKPRESSURE_BOUNDARY && data.len()
                    < INITIAL_CAPACITY {
                    return self.add_what_fits(data);
                }
                match self.flush(event) {
                    FlushStep::Io(request) => WriteStep::Io(request),
                    FlushStep::Done(Ok(())) => WriteStep::Direct,
                    FlushStep::Done(Err(cause)) => WriteStep::Done(Err(cause)),
                }
            },
            WriteEvent::Direct(result) => WriteStep::Done(result),
        }
    }

    /// One step of an unframed write from several memory areas. Only the first
    /// is used; without one nothing is written.
    pub fn writev(&mut self, slot: Option<&[u8]>, event: WriteEvent) -> (step: WriteStep)
        ensures
            writev_does(
                old(self).held(),
                match slot {
                    None => None,
                    Some(data) => Some(data@),
                },
                event,
                final(self).held(),
                step,
            ),
    {
        match slot {
            None => WriteStep::Done(Ok(0)),
            Some(data) => self.write(data, event),
        }
    }

    /// One step of sending an item. If much is buffered, the buffer is sent
    /// first; the item is encoded only if that went well.
    pub fn send_with<C: Encoder<Item>, Item>(
        &mut self,
        codec: &mut C,
        item: Item,
        event: FlushEvent,
    ) -> (step: SendStep<Item, C::Error>)
        ensures
            send_does(
                old(self).held(),
                *old(codec),
                item,
                event,
                final(self).held(),
                *final(codec),
                step,
            ),
    {
        let starts = match &event {
            FlushEvent::Start => true,
            _ => false,
        };
        if !starts || self.buffer.len() >= BACKPRESSURE_BOUNDARY {
            match self.flush(event) {
                FlushStep::Io(request) => return SendStep::Io(request, item),
                FlushStep::Done(Err(cause)) => return SendStep::Done(Err(convert(cause))),
                FlushStep::Done(Ok(())) => {},
            }
        }
        SendStep::Done(codec.encode(item, &mut self.buffer))
    }

    /// One step of shutting the stream down once what is buffered has been sent.
    pub fn shutdown(&mut self, event: ShutdownEvent) -> (step: ShutdownStep<std::io::Error>)
        ensures
            shutdown_does(old(self).held(), event, final(self).held(), step),
    {
        match event {
            ShutdownEvent::Flush(event) => match self.flush(event) {
                FlushStep::Io(request) => ShutdownStep::Io(request),
                FlushStep::Done(Ok(())) => ShutdownStep::Shutdown,
                FlushStep::Done(Err(cause)) => ShutdownStep::Done(Err(cause)),
            },
            ShutdownEvent::Shutdown(result) => ShutdownStep::Done(result),
        }
    }

    /// One step of closing a sink with errors of its own.
    pub fn close<E: From<std::io::Error>>(&mut self, event: ShutdownEvent) -> (step: ShutdownStep<
        E,
    >)
        ensures
            close_does(old(self).held(), event, final(self).held(), step),
    {
        let plain = self.shutdown(event);
        let ghost done = plain;
        let step = match plain {
            ShutdownStep::Io(request) => ShutdownStep::Io(request),
            ShutdownStep::Shutdown => ShutdownStep::Shutdown,
            ShutdownStep::Done(Ok(())) => ShutdownStep::Done(Ok(())),
            ShutdownStep::Done(Err(cause)) => ShutdownStep::Done(Err(convert(cause))),
        };
        assert(shutdown_as(done, step));
        step
    }

    /// The buffer of bytes not yet sent.
    pub fn buffer(&self) -> (buffer: &BytesMut)
        ensures
            *buffer == self.held(),
    {
        &self.buffer
    }

    /// The buffer of bytes not yet sent.
    pub fn buffer_mut(&mut self) -> (buffer: &mut BytesMut)
        ensures
            *buffer == old(self).held(),
            final(self).held() == *final(buffer),
    {
        &mut self.buffer
    }
}

} // verus!
