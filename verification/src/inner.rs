//! What framed streams have in common: an I/O stream, a codec and a state with
//! one half or both.
use vstd::prelude::*;
use crate::read::{
    FillEvent, Lease, NextStep, PeekStep, ReadEvent, ReadState, ReadStep, INITIAL_CAPACITY,
};
use crate::read::{fresh, lends, next_does, peek_does, read_does, reading, readv_does};
use crate::sync_codec::{Decoder, Encoder};
use crate::write::{
    FlushEvent, FlushStep, SendStep, ShutdownEvent, ShutdownStep, WriteEvent, WriteState, WriteStep,
};
use crate::write::{
    close_does, flush_does, flush_sink_does, send_does, shutdown_does, write_does, writev_does,
};

verus! {

/// Both halves of a stream.
#[derive(Debug)]
pub struct RWState {
    read: ReadState,
    write: WriteState,
}

impl Default for RWState {
    /// Empty buffers of the usual size, about to read frames.
    fn default() -> (state: Self)
        ensures
            fresh(state.read_half()@, INITIAL_CAPACITY),
            state.write_half()@ == Seq::<u8>::empty(),
            forall|room: usize| #[trigger]
                state.write_half().may_hold(room) ==> INITIAL_CAPACITY <= room,
    {
        RWState { read: ReadState::default(), write: WriteState::default() }
    }
}

impl RWState {
    /// The half that reads.
    pub closed spec fn read_part(self) -> ReadState {
        self.read
    }

    /// The half that writes.
    pub closed spec fn write_part(self) -> WriteState {
        self.write
    }

    /// Empty buffers, with room for `capacity` bytes in the one for reading.
    pub fn with_capacity(capacity: usize) -> (state: Self)
        requires
            capacity <= isize::MAX,
        ensures
            fresh(state.read_half()@, capacity),
            state.write_half()@ == Seq::<u8>::empty(),
            forall|room: usize| #[trigger]
                state.write_half().may_hold(room) ==> INITIAL_CAPACITY <= room,
    {
        RWState { read: ReadState::with_capacity(capacity), write: WriteState::default() }
    }
}

/// A state with a reading half.
pub trait BorrowRead: Sized {
    /// The reading half.
    spec fn read_half(self) -> ReadState;

    /// Nothing but the reading half differs.
    spec fn differs_in_read(self, other: Self) -> bool;

    fn borrow_read(&self) -> (read: &ReadState)
        ensures
            *read == self.read_half(),
    ;

    fn borrow_read_mut(&mut self) -> (read: &mut ReadState)
        ensures
            *read == old(self).read_half(),
            final(self).read_half() == *final(read),
            old(self).differs_in_read(*final(self)),
    ;
}

/// A state with a writing half.
pub trait BorrowWrite: Sized {
    /// The writing half.
    spec fn write_half(self) -> WriteState;

    /// Nothing but the writing half differs.
    spec fn differs_in_write(self, other: Self) -> bool;

    fn borrow_write(&self) -> (write: &WriteState)
        ensures
            *write == self.write_half(),
    ;

    fn borrow_write_mut(&mut self) -> (write: &mut WriteState)
        ensures
            *write == old(self).write_half(),
            final(self).write_half() == *final(write),
            old(self).differs_in_write(*final(self)),
    ;
}

impl BorrowRead for ReadState {
    open spec fn read_half(self) -> ReadState {
        self
    }

    open spec fn differs_in_read(self, other: Self) -> bool {
        true
    }

    fn borrow_read(&self) -> (read: &ReadState) {
        self
    }

    fn borrow_read_mut(&mut self) -> (read: &mut ReadState) {
        self
    }
}

impl BorrowWrite for WriteState {
    open spec fn write_half(self) -> WriteState {
        self
    }

    open spec fn differs_in_write(self, other: Self) -> bool {
        true
    }

    fn borrow_write(&self) -> (write: &WriteState) {
        self
    }

    fn borrow_write_mut(&mut self) -> (write: &mut WriteState) {
        self
    }
}

impl BorrowRead for RWState {
    open spec fn read_half(self) -> ReadState {
        self.read_part()
    }

    open spec fn differs_in_read(self, other: Self) -> bool {
        self.write_part() == other.write_part()
    }

    fn borrow_read(&self) -> (read: &ReadState) {
        &self.read
    }

    fn borrow_read_mut(&mut self) -> (read: &mut ReadState) {
        &mut self.read
    }
}

impl BorrowWrite for RWState {
    open spec fn write_half(self) -> WriteState {
        self.write_part()
    }

    open spec fn differs_in_write(self, other: Self) -> bool {
        self.read_part() == other.read_part()
    }

    fn borrow_write(&self) -> (write: &WriteState) {
        &self.write
    }

    fn borrow_write_mut(&mut self) -> (write: &mut WriteState) {
        &mut self.write
    }
}

/// What framed streams have in common.
#[derive(Debug)]
pub struct FramedInner<IO, Codec, S> {
    pub io: IO,
    pub codec: Codec,
    pub state: S,
}

impl<IO, Codec, S> FramedInner<IO, Codec, S> {
    pub fn new(io: IO, codec: Codec, state: S) -> (inner: Self)
        ensures
            inner.io == io,
            inner.codec == codec,
            inner.state == state,
    {
        Self { io, codec, state }
    }
}

impl<IO, Codec, S: BorrowRead> FramedInner<IO, Codec, S> {
    /// One step towards having data at hand.
    pub fn peek_data(state: &mut S, event: FillEvent) -> (step: PeekStep)
        ensures
            peek_does(old(state).read_half()@, event, final(state).read_half()@, step),
            old(state).differs_in_read(*final(state)),
    {
        state.borrow_read_mut().peek_data(event)
    }

    /// One step towards the next frame.
    pub fn next_with(codec: &mut Codec, state: &mut S, event: FillEvent) -> (step: NextStep<
        Codec::Item,
        Codec::Error,
    >) where Codec: Decoder
        requires
            event is Filled ==> reading(old(state).read_half()@.state),
        ensures
            next_does(
                old(state).read_half()@,
                *old(codec),
                event,
                final(state).read_half()@,
                *final(codec),
                step,
            ),
            step is Fill ==> reading(final(state).read_half()@.state),
            old(state).differs_in_read(*final(state)),
    {
        state.borrow_read_mut().next_with(codec, event)
    }

    /// One step towards the next frame, with the codec of the stream.
    pub fn next(&mut self, event: FillEvent) -> (step: NextStep<Codec::Item, Codec::Error>) where
        Codec: Decoder,

        requires
            event is Filled ==> reading(old(self).state.read_half()@.state),
        ensures
            next_does(
                old(self).state.read_half()@,
                old(self).codec,
                event,
                final(self).state.read_half()@,
                final(self).codec,
                step,
            ),
            step is Fill ==> reading(final(self).state.read_half()@.state),
            old(self).state.differs_in_read(final(self).state),
            final(self).io == old(self).io,
    {
        Self::next_with(&mut self.codec, &mut self.state, event)
    }

    /// Lends the buffer out to be read into, see [`ReadState::lend`].
    pub fn lend(&mut self, additional: usize) -> (lease: Lease)
        requires
            0 < additional,
            old(self).state.read_half()@.bytes().len() + additional <= isize::MAX,
        ensures
            lends(
                old(self).state.read_half()@,
                additional,
                final(self).state.read_half()@,
                lease,
            ),
            old(self).state.differs_in_read(final(self).state),
            final(self).io == old(self).io,
            final(self).codec == old(self).codec,
    {
        self.state.borrow_read_mut().lend(additional)
    }

    /// One step of an unframed read by a caller with room for `total` bytes.
    pub fn read(&mut self, total: usize, event: ReadEvent) -> (step: ReadStep)
        ensures
            read_does(
                old(self).state.read_half()@,
                total,
                event,
                final(self).state.read_half()@,
                step,
            ),
            old(self).state.differs_in_read(final(self).state),
            final(self).io == old(self).io,
            final(self).codec == old(self).codec,
    {
        self.state.borrow_read_mut().read(total, event)
    }

    /// One step of an unframed read into several memory areas.
    pub fn readv(&mut self, slot: Option<usize>, event: ReadEvent) -> (step: ReadStep)
        ensures
            readv_does(
                old(self).state.read_half()@,
                slot,
                event,
                final(self).state.read_half()@,
                step,
            ),
            old(self).state.differs_in_read(final(self).state),
            final(self).io == old(self).io,
            final(self).codec == old(self).codec,
    {
        self.state.borrow_read_mut().readv(slot, event)
    }
}

impl<IO, Codec, S: BorrowWrite> FramedInner<IO, Codec, S> {
    /// One step of sending what is buffered.
    pub fn flush(state: &mut S, event: FlushEvent) -> (step: FlushStep<std::io::Error>)
        ensures
            flush_does(
                old(state).write_half().held(),
                event,
                final(state).write_half().held(),
                step,
            ),
            old(state).differs_in_write(*final(state)),
    {
        state.borrow_write_mut().flush(event)
    }

    /// One step of sending an item.
    pub fn send_with<Item>(
        codec: &mut Codec,
        state: &mut S,
        item: Item,
        event: FlushEvent,
    ) -> (step: SendStep<Item, Codec::Error>) where Codec: Encoder<Item>
        ensures
            send_does(
                old(state).write_half().held(),
                *old(codec),
                item,
                event,
                final(state).write_half().held(),
                *final(codec),
                step,
            ),
            old(state).differs_in_write(*final(state)),
    {
        state.borrow_write_mut().send_with(codec, item, event)
    }

    /// One step of sending an item, with the codec of the stream.
    pub fn send<Item>(&mut self, item: Item, event: FlushEvent) -> (step: SendStep<
        Item,
        Codec::Error,
    >) where Codec: Encoder<Item>
        ensures
            send_does(
                old(self).state.write_half().held(),
                old(self).codec,
                item,
                event,
                final(self).state.write_half().held(),
                final(self).codec,
                step,
            ),
            old(self).state.differs_in_write(final(self).state),
            final(self).io == old(self).io,
    {
        Self::send_with(&mut self.codec, &mut self.state, item, event)
    }

    /// One step of sending what is buffered, for a sink with errors of its own.
    pub fn flush_sink<E: From<std::io::Error>>(&mut self, event: FlushEvent) -> (step: FlushStep<E>)
        ensures
            flush_sink_does(
                old(self).state.write_half().held(),
                event,
                final(self).state.write_half().held(),
                step,
            ),
            old(self).state.differs_in_write(final(self).state),
            final(self).io == old(self).io,
            final(self).codec == old(self).codec,
    {
        self.state.borrow_write_mut().flush_sink(event)
    }

    /// One step of an unframed write.
    pub fn write(&mut self, data: &[u8], event: WriteEvent) -> (step: WriteStep)
        ensures
            write_does(
                old(self).state.write_half().held(),
                data@,
                event,
                final(self).state.write_half().held(),
                step,
            ),
            old(self).state.differs_in_write(final(self).state),
            final(self).io == old(self).io,
            final(self).codec == old(self).codec,
    {
        self.state.borrow_write_mut().write(data, event)
    }

    /// One step of an unframed write from several memory areas.
    pub fn writev(&mut self, slot: Option<&[u8]>, event: WriteEvent) -> (step: WriteStep)
        ensures
            writev_does(
                old(self).state.write_half().held(),
                match slot {
                    None => None,
                    Some(data) => Some(data@),
                },
                event,
                final(self).state.write_half().held(),
                step,
            ),
            old(self).state.differs_in_write(final(self).state),
            final(self).io == old(self).io,
            final(self).codec == old(self).codec,
    {
        self.state.borrow_write_mut().writev(slot, event)
    }

    /// One step of shutting the stream down.
    pub fn shutdown(&mut self, event: ShutdownEvent) -> (step: ShutdownStep<std::io::Error>)
        ensures
            shutdown_does(
                old(self).state.write_half().held(),
                event,
                final(self).state.write_half().held(),
                step,
            ),
            old(self).state.differs_in_write(final(self).state),
            final(self).io == old(self).io,
            final(self).codec == old(self).codec,
    {
        self.state.borrow_write_mut().shutdown(event)
    }

    /// One step of closing a sink with errors of its own.
    pub fn close<E: From<std::io::Error>>(&mut self, event: ShutdownEvent) -> (step: ShutdownStep<
        E,
    >)
        ensures
            close_does(
                old(self).state.write_half().held(),
                event,
                final(self).state.write_half().held(),
                step,
            ),
            old(self).state.differs_in_write(final(self).state),
            final(self).io == old(self).io,
            final(self).codec == old(self).codec,
    {
        self.state.borrow_write_mut().close(event)
    }
}

} // verus!
