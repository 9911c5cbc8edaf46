//! Framed streams: an I/O stream, a codec and the buffers between them.
//!
//! [`Framed`] reads and writes frames, [`FramedRead`] and [`FramedWrite`] do one
//! of the two. Their operations are taken step by step, see [`crate::read`] and
//! [`crate::write`]; whoever owns the stream performs the input and output.
use vstd::prelude::*;
use bytes::BytesMut;
use crate::buffer::same_room;
use crate::inner::{BorrowRead, BorrowWrite, FramedInner, RWState};
use crate::read::{
    FillEvent, Lease, NextStep, PeekStep, ReadEvent, ReadModel, ReadState, ReadStep, State,
    INITIAL_CAPACITY,
};
use crate::read::{fresh, lends, next_does, peek_does, read_does, reading, readv_does, share};
use crate::sync_codec::{Decoder, Encoder};
use crate::write::{
    FlushEvent, FlushStep, SendStep, ShutdownEvent, ShutdownStep, WriteEvent, WriteState, WriteStep,
};
use crate::write::{
    close_does, flush_does, flush_sink_does, send_does, shutdown_does, write_does, writev_does,
};

verus! {

/// A stream of frames that are decoded with a codec of the caller's.
pub trait StreamWithCodec<T: Decoder>: Sized {
    /// The reading half.
    spec fn stream(self) -> ReadModel;

    /// Nothing but the reading half differs.
    spec fn differs_in_stream(self, other: Self) -> bool;

    /// Equivalent to one step of `next`, but with a custom codec.
    fn next_with(&mut self, codec: &mut T, event: FillEvent) -> (step: NextStep<T::Item, T::Error>)
        requires
            event is Filled ==> reading(old(self).stream().state),
        ensures
            next_does(
                old(self).stream(),
                *old(codec),
                event,
                final(self).stream(),
                *final(codec),
                step,
            ),
            step is Fill ==> reading(final(self).stream().state),
            old(self).differs_in_stream(*final(self)),
    ;
}

/// A sink for items that are encoded with a codec of the caller's.
pub trait SinkWithCodec<T: Encoder<Item>, Item>: Sized {
    /// The writing half.
    spec fn sink(self) -> WriteState;

    /// Nothing but the writing half differs.
    spec fn differs_in_sink(self, other: Self) -> bool;

    /// Equivalent to one step of `send`, but with a custom codec.
    fn send_with(&mut self, codec: &mut T, item: Item, event: FlushEvent) -> (step: SendStep<
        Item,
        T::Error,
    >)
        ensures
            send_does(
                old(self).sink().held(),
                *old(codec),
                item,
                event,
                final(self).sink().held(),
                *final(codec),
                step,
            ),
            old(self).differs_in_sink(*final(self)),
    ;

    /// One step of sending what is buffered.
    fn flush(&mut self, event: FlushEvent) -> (step: FlushStep<T::Error>)
        ensures
            flush_sink_does(old(self).sink().held(), event, final(self).sink().held(), step),
            old(self).differs_in_sink(*final(self)),
    ;
}

/// An I/O stream of frames in both directions.
pub struct Framed<IO, Codec> {
    inner: FramedInner<IO, Codec, RWState>,
}

/// [`Framed`] as contracts see it.
pub struct FramedModel<IO, Codec> {
    pub io: IO,
    pub codec: Codec,
    pub read: ReadModel,
    pub write: WriteState,
}

impl<IO, Codec> View for Framed<IO, Codec> {
    type V = FramedModel<IO, Codec>;

    closed spec fn view(&self) -> FramedModel<IO, Codec> {
        FramedModel {
            io: self.inner.io,
            codec: self.inner.codec,
            read: self.inner.state.read_half()@,
            write: self.inner.state.write_half(),
        }
    }
}

impl<IO, Codec> Framed<IO, Codec> {
    /// A framed stream with empty buffers of the usual size.
    pub fn new(io: IO, codec: Codec) -> (framed: Self)
        ensures
            framed@.io == io,
            framed@.codec == codec,
            fresh(framed@.read, INITIAL_CAPACITY),
            framed@.write@ == Seq::<u8>::empty(),
            forall|room: usize| #[trigger]
                framed@.write.may_hold(room) ==> INITIAL_CAPACITY <= room,
    {
        Self { inner: FramedInner::new(io, codec, RWState::default()) }
    }

    /// A framed stream with empty buffers, with room for `capacity` bytes in the
    /// one for reading.
    pub fn with_capacity(io: IO, codec: Codec, capacity: usize) -> (framed: Self)
        requires
            capacity <= isize::MAX,
        ensures
            framed@.io == io,
            framed@.codec == codec,
            fresh(framed@.read, capacity),
            framed@.write@ == Seq::<u8>::empty(),
            forall|room: usize| #[trigger]
                framed@.write.may_hold(room) ==> INITIAL_CAPACITY <= room,
    {
        Self { inner: FramedInner::new(io, codec, RWState::with_capacity(capacity)) }
    }

    /// Returns a reference to the underlying I/O stream wrapped by
    /// `Framed`.
    ///
    /// Note that care should be taken to not tamper with the underlying stream
    /// of data coming in as it may corrupt the stream of frames otherwise
    /// being worked with.
    pub fn get_ref(&self) -> (io: &IO)
        ensures
            *io == self@.io,
    {
        &self.inner.io
    }

    /// Returns a mutable reference to the underlying I/O stream wrapped by
    /// `Framed`.
    ///
    /// Note that care should be taken to not tamper with the underlying stream
    /// of data coming in as it may corrupt the stream of frames otherwise
    /// being worked with.
    pub fn get_mut(&mut self) -> (io: &mut IO)
        ensures
            *io == old(self)@.io,
            final(self)@ == (FramedModel { io: *final(io), ..old(self)@ }),
    {
        &mut self.inner.io
    }

    /// Consumes the `Framed`, returning its underlying I/O stream.
    ///
    /// Note that care should be taken to not tamper with the underlying stream
    /// of data coming in as it may corrupt the stream of frames otherwise
    /// being worked with.
    pub fn into_inner(self) -> (io: IO)
        ensures
            io == self@.io,
    {
        self.inner.io
    }

    /// Returns a reference to the underlying codec.
    ///
    /// Note that care should be taken to not tamper with the underlying codec
    /// as it may corrupt the stream of frames otherwise being worked with.
    pub fn codec(&self) -> (codec: &Codec)
        ensures
            *codec == self@.codec,
    {
        &self.inner.codec
    }

    /// Returns a mutable reference to the underlying codec.
    ///
    /// Note that care should be taken to not tamper with the underlying codec
    /// as it may corrupt the stream of frames otherwise being worked with.
    pub fn codec_mut(&mut self) -> (codec: &mut Codec)
        ensures
            *codec == old(self)@.codec,
            final(self)@ == (FramedModel { codec: *final(codec), ..old(self)@ }),
    {
        &mut self.inner.codec
    }

    /// Maps the codec, preserving the buffers and where the stream stands.
    ///
    /// Note that care should be taken to not tamper with the underlying codec
    /// as it may corrupt the stream of frames otherwise being worked with.
    pub fn map_codec<CodecNew, F>(self, map: F) -> (framed: Framed<IO, CodecNew>) where
        F: FnOnce(Codec) -> CodecNew,

        requires
            call_requires(map, (self@.codec,)),
        ensures
            call_ensures(map, (self@.codec,), framed@.codec),
            framed@.io == self@.io,
            framed@.read == self@.read,
            framed@.write == self@.write,
    {
        let FramedInner { io, codec, state } = self.inner;
        Framed { inner: FramedInner { io, codec: map(codec), state } }
    }

    /// Returns a reference to the read buffer.
    pub fn read_buffer(&self) -> (buffer: &BytesMut)
        ensures
            *buffer == self@.read.buffer,
    {
        self.inner.state.borrow_read().buffer()
    }

    /// Returns a mutable reference to the read buffer.
    pub fn read_buffer_mut(&mut self) -> (buffer: &mut BytesMut)
        ensures
            *buffer == old(self)@.read.buffer,
            final(self)@ == (FramedModel {
                read: ReadModel { state: old(self)@.read.state, buffer: *final(buffer) },
                ..old(self)@
            }),
    {
        self.inner.state.borrow_read_mut().buffer_mut()
    }

    /// Returns io and a mutable reference to the read buffer.
    pub fn read_state_mut(&mut self) -> (parts: (&mut IO, &mut BytesMut))
        ensures
            *parts.0 == old(self)@.io,
            *parts.1 == old(self)@.read.buffer,
            final(self)@ == (FramedModel {
                io: *final(parts.0),
                read: ReadModel { state: old(self)@.read.state, buffer: *final(parts.1) },
                ..old(self)@
            }),
    {
        (&mut self.inner.io, self.inner.state.borrow_read_mut().buffer_mut())
    }

    /// Returns where the stream of frames stands.
    pub fn read_state(&self) -> (state: State)
        ensures
            state == self@.read.state,
    {
        self.inner.state.borrow_read().state()
    }

    /// Returns a reference to the write buffer.
    pub fn write_buffer(&self) -> (buffer: &BytesMut)
        ensures
            *buffer == self@.write.held(),
    {
        self.inner.state.borrow_write().buffer()
    }

    /// Returns a mutable reference to the write buffer.
    pub fn write_buffer_mut(&mut self) -> (buffer: &mut BytesMut)
        ensures
            *buffer == old(self)@.write.held(),
            final(self)@.write.held() == *final(buffer),
            final(self)@ == (FramedModel { write: final(self)@.write, ..old(self)@ }),
    {
        self.inner.state.borrow_write_mut().buffer_mut()
    }

    /// One step towards the next frame.
    pub fn next(&mut self, event: FillEvent) -> (step: NextStep<Codec::Item, Codec::Error>) where
        Codec: Decoder,

        requires
            event is Filled ==> reading(old(self)@.read.state),
        ensures
            next_does(
                old(self)@.read,
                old(self)@.codec,
                event,
                final(self)@.read,
                final(self)@.codec,
                step,
            ),
            step is Fill ==> reading(final(self)@.read.state),
            final(self)@ == (FramedModel {
                codec: final(self)@.codec,
                read: final(self)@.read,
                ..old(self)@
            }),
    {
        self.inner.next(event)
    }

    /// Equivalent to [`Framed::next`] but with custom codec.
    pub fn next_with<C: Decoder>(&mut self, codec: &mut C, event: FillEvent) -> (step: NextStep<
        C::Item,
        C::Error,
    >)
        requires
            event is Filled ==> reading(old(self)@.read.state),
        ensures
            next_does(
                old(self)@.read,
                *old(codec),
                event,
                final(self)@.read,
                *final(codec),
                step,
            ),
            step is Fill ==> reading(final(self)@.read.state),
            final(self)@ == (FramedModel { read: final(self)@.read, ..old(self)@ }),
    {
        FramedInner::<IO, C, _>::next_with(codec, &mut self.inner.state, event)
    }

    /// One step of awaiting some new data. Useful to do read timeout. Once done,
    /// the data is at [`Framed::data_mut`].
    pub fn peek_data(&mut self, event: FillEvent) -> (step: PeekStep)
        ensures
            peek_does(old(self)@.read, event, final(self)@.read, step),
            final(self)@ == (FramedModel { read: final(self)@.read, ..old(self)@ }),
    {
        FramedInner::<IO, Codec, _>::peek_data(&mut self.inner.state, event)
    }

    /// Returns the bytes read and not yet consumed.
    pub fn data_mut(&mut self) -> (data: &mut [u8])
        ensures
            data@ == old(self)@.read.bytes(),
            final(self)@.read.state == old(self)@.read.state,
            final(self)@.read.bytes() == final(data)@,
            same_room(old(self)@.read.buffer, final(self)@.read.buffer),
            final(self)@ == (FramedModel { read: final(self)@.read, ..old(self)@ }),
    {
        self.inner.state.borrow_read_mut().data_mut()
    }

    /// Lends the read buffer out to be read into, see [`ReadState::lend`].
    pub fn lend(&mut self, additional: usize) -> (lease: Lease)
        requires
            0 < additional,
            old(self)@.read.bytes().len() + additional <= isize::MAX,
        ensures
            lends(old(self)@.read, additional, final(self)@.read, lease),
            final(self)@ == (FramedModel { read: final(self)@.read, ..old(self)@ }),
    {
        self.inner.lend(additional)
    }

    /// Returns the first `count` of the bytes read and not yet consumed, or all if
    /// there are fewer.
    pub fn front(&self, count: usize) -> (bytes: &[u8])
        ensures
            bytes@ == self@.read.bytes().take(share(self@.read.buffer, count) as int),
    {
        self.inner.state.borrow_read().front(count)
    }

    /// One step of an unframed read by a caller with room for `total` bytes.
    pub fn read(&mut self, total: usize, event: ReadEvent) -> (step: ReadStep)
        ensures
            read_does(old(self)@.read, total, event, final(self)@.read, step),
            final(self)@ == (FramedModel { read: final(self)@.read, ..old(self)@ }),
    {
        self.inner.read(total, event)
    }

    /// One step of an unframed read into several memory areas, of which the
    /// first has room for `slot` bytes.
    pub fn readv(&mut self, slot: Option<usize>, event: ReadEvent) -> (step: ReadStep)
        ensures
            readv_does(old(self)@.read, slot, event, final(self)@.read, step),
            final(self)@ == (FramedModel { read: final(self)@.read, ..old(self)@ }),
    {
        self.inner.readv(slot, event)
    }

    /// One step of sending an item.
    pub fn send<Item>(&mut self, item: Item, event: FlushEvent) -> (step: SendStep<
        Item,
        Codec::Error,
    >) where Codec: Encoder<Item>
        ensures
            send_does(
                old(self)@.write.held(),
                old(self)@.codec,
                item,
                event,
                final(self)@.write.held(),
                final(self)@.codec,
                step,
            ),
            final(self)@ == (FramedModel {
                codec: final(self)@.codec,
                write: final(self)@.write,
                ..old(self)@
            }),
    {
        self.inner.send(item, event)
    }

    /// Equivalent to [`Framed::send`] but with custom codec.
    pub fn send_with<C: Encoder<Item>, Item>(
        &mut self,
        codec: &mut C,
        item: Item,
        event: FlushEvent,
    ) -> (step: SendStep<Item, C::Error>)
        ensures
            send_does(
                old(self)@.write.held(),
                *old(codec),
                item,
                event,
                final(self)@.write.held(),
                *final(codec),
                step,
            ),
            final(self)@ == (FramedModel { write: final(self)@.write, ..old(self)@ }),
    {
        FramedInner::<IO, C, _>::send_with(codec, &mut self.inner.state, item, event)
    }

    /// One step of sending what is buffered.
    pub fn flush(&mut self, event: FlushEvent) -> (step: FlushStep<std::io::Error>)
        ensures
            flush_does(old(self)@.write.held(), event, final(self)@.write.held(), step),
            final(self)@ == (FramedModel { write: final(self)@.write, ..old(self)@ }),
    {
        FramedInner::<IO, Codec, _>::flush(&mut self.inner.state, event)
    }

    /// One step of sending what is buffered, for a sink with errors of its own.
    pub fn flush_sink<E: From<std::io::Error>>(&mut self, event: FlushEvent) -> (step: FlushStep<E>)
        ensures
            flush_sink_does(old(self)@.write.held(), event, final(self)@.write.held(), step),
            final(self)@ == (FramedModel { write: final(self)@.write, ..old(self)@ }),
    {
        self.inner.flush_sink(event)
    }

    /// One step of an unframed write.
    pub fn write(&mut self, data: &[u8], event: WriteEvent) -> (step: WriteStep)
        ensures
            write_does(old(self)@.write.held(), data@, event, final(self)@.write.held(), step),
            final(self)@ == (FramedModel { write: final(self)@.write, ..old(self)@ }),
    {
        self.inner.write(data, event)
    }

    /// One step of an unframed write from several memory areas, of which the
    /// first is `slot`.
    pub fn writev(&mut self, slot: Option<&[u8]>, event: WriteEvent) -> (step: WriteStep)
        ensures
            writev_does(
                old(self)@.write.held(),
                match slot {
                    None => None,
                    Some(data) => Some(data@),
                },
                event,
                final(self)@.write.held(),
                step,
            ),
            final(self)@ == (FramedModel { write: final(self)@.write, ..old(self)@ }),
    {
        self.inner.writev(slot, event)
    }

    /// One step of shutting the stream down.
    pub fn shutdown(&mut self, event: ShutdownEvent) -> (step: ShutdownStep<std::io::Error>)
        ensures
            shutdown_does(old(self)@.write.held(), event, final(self)@.write.held(), step),
            final(self)@ == (FramedModel { write: final(self)@.write, ..old(self)@ }),
    {
        self.inner.shutdown(event)
    }

    /// One step of closing a sink with errors of its own.
    pub fn close<E: From<std::io::Error>>(&mut self, event: ShutdownEvent) -> (step: ShutdownStep<
        E,
    >)
        ensures
            close_does(old(self)@.write.held(), event, final(self)@.write.held(), step),
            final(self)@ == (FramedModel { write: final(self)@.write, ..old(self)@ }),
    {
        self.inner.close(event)
    }
}

impl<IO, AnyCodec, T: Decoder> StreamWithCodec<T> for Framed<IO, AnyCodec> {
    open spec fn stream(self) -> ReadModel {
        self@.read
    }

    open spec fn differs_in_stream(self, other: Self) -> bool {
        other@ == (FramedModel { read: other@.read, ..self@ })
    }

    fn next_with(&mut self, codec: &mut T, event: FillEvent) -> (step: NextStep<
        T::Item,
        T::Error,
    >) {
        FramedInner::<IO, T, _>::next_with(codec, &mut self.inner.state, event)
    }
}

impl<IO, AnyCodec, T: Encoder<Item>, Item> SinkWithCodec<T, Item> for Framed<IO, AnyCodec> {
    open spec fn sink(self) -> WriteState {
        self@.write
    }

    open spec fn differs_in_sink(self, other: Self) -> bool {
        other@ == (FramedModel { write: other@.write, ..self@ })
    }

    fn send_with(&mut self, codec: &mut T, item: Item, event: FlushEvent) -> (step: SendStep<
        Item,
        T::Error,
    >) {
        FramedInner::<IO, T, _>::send_with(codec, &mut self.inner.state, item, event)
    }

    fn flush(&mut self, event: FlushEvent) -> (step: FlushStep<T::Error>) {
        self.inner.flush_sink(event)
    }
}

/// An I/O stream that frames are read from.
pub struct FramedRead<IO, Codec> {
    inner: FramedInner<IO, Codec, ReadState>,
}

/// [`FramedRead`] as contracts see it.
pub struct FramedReadModel<IO, Codec> {
    pub io: IO,
    pub codec: Codec,
    pub read: ReadModel,
}

impl<IO, Codec> View for FramedRead<IO, Codec> {
    type V = FramedReadModel<IO, Codec>;

    closed spec fn view(&self) -> FramedReadModel<IO, Codec> {
        FramedReadModel {
            io: self.inner.io,
            codec: self.inner.codec,
            read: self.inner.state.read_half()@,
        }
    }
}

impl<IO, Codec> FramedRead<IO, Codec> {
    /// A framed stream with empty buffers of the usual size.
    pub fn new(io: IO, codec: Codec) -> (framed: Self)
        ensures
            framed@.io == io,
            framed@.codec == codec,
            fresh(framed@.read, INITIAL_CAPACITY),
    {
        Self { inner: FramedInner::new(io, codec, ReadState::default()) }
    }

    /// A framed stream with empty buffers, with room for `capacity` bytes in the
    /// one for reading.
    pub fn with_capacity(io: IO, codec: Codec, capacity: usize) -> (framed: Self)
        requires
            capacity <= isize::MAX,
        ensures
            framed@.io == io,
            framed@.codec == codec,
            fresh(framed@.read, capacity),
    {
        Self { inner: FramedInner::new(io, codec, ReadState::with_capacity(capacity)) }
    }

    /// Returns a reference to the underlying I/O stream wrapped by
    /// `FramedRead`.
    ///
    /// Note that care should be taken to not tamper with the underlying stream
    /// of data coming in as it may corrupt the stream of frames otherwise
    /// being worked with.
    pub fn get_ref(&self) -> (io: &IO)
        ensures
            *io == self@.io,
    {
        &self.inner.io
    }

    /// Returns a mutable reference to the underlying I/O stream wrapped by
    /// `FramedRead`.
    ///
    /// Note that care should be taken to not tamper with the underlying stream
    /// of data coming in as it may corrupt the stream of frames otherwise
    /// being worked with.
    pub fn get_mut(&mut self) -> (io: &mut IO)
        ensures
            *io == old(self)@.io,
            final(self)@ == (FramedReadModel { io: *final(io), ..old(self)@ }),
    {
        &mut self.inner.io
    }

    /// Consumes the `FramedRead`, returning its underlying I/O stream.
    ///
    /// Note that care should be taken to not tamper with the underlying stream
    /// of data coming in as it may corrupt the stream of frames otherwise
    /// being worked with.
    pub fn into_inner(self) -> (io: IO)
        ensures
            io == self@.io,
    {
        self.inner.io
    }

    /// Returns a reference to the underlying decoder.
    ///
    /// Note that care should be taken to not tamper with the underlying codec
    /// as it may corrupt the stream of frames otherwise being worked with.
    pub fn decoder(&self) -> (codec: &Codec)
        ensures
            *codec == self@.codec,
    {
        &self.inner.codec
    }

    /// Returns a mutable reference to the underlying decoder.
    ///
    /// Note that care should be taken to not tamper with the underlying codec
    /// as it may corrupt the stream of frames otherwise being worked with.
    pub fn decoder_mut(&mut self) -> (codec: &mut Codec)
        ensures
            *codec == old(self)@.codec,
            final(self)@ == (FramedReadModel { codec: *final(codec), ..old(self)@ }),
    {
        &mut self.inner.codec
    }

    /// Maps the decoder, preserving the buffers and where the stream stands.
    ///
    /// Note that care should be taken to not tamper with the underlying codec
    /// as it may corrupt the stream of frames otherwise being worked with.
    pub fn map_decoder<CodecNew, F>(self, map: F) -> (framed: FramedRead<IO, CodecNew>) where
        F: FnOnce(Codec) -> CodecNew,

        requires
            call_requires(map, (self@.codec,)),
        ensures
            call_ensures(map, (self@.codec,), framed@.codec),
            framed@.io == self@.io,
            framed@.read == self@.read,
    {
        let FramedInner { io, codec, state } = self.inner;
        FramedRead { inner: FramedInner { io, codec: map(codec), state } }
    }

    /// Returns a reference to the read buffer.
    pub fn read_buffer(&self) -> (buffer: &BytesMut)
        ensures
            *buffer == self@.read.buffer,
    {
        self.inner.state.borrow_read().buffer()
    }

    /// Returns a mutable reference to the read buffer.
    pub fn read_buffer_mut(&mut self) -> (buffer: &mut BytesMut)
        ensures
            *buffer == old(self)@.read.buffer,
            final(self)@ == (FramedReadModel {
                read: ReadModel { state: old(self)@.read.state, buffer: *final(buffer) },
                ..old(self)@
            }),
    {
        self.inner.state.borrow_read_mut().buffer_mut()
    }

    /// Returns io and a mutable reference to the read buffer.
    pub fn read_state_mut(&mut self) -> (parts: (&mut IO, &mut BytesMut))
        ensures
            *parts.0 == old(self)@.io,
            *parts.1 == old(self)@.read.buffer,
            final(self)@ == (FramedReadModel {
                io: *final(parts.0),
                read: ReadModel { state: old(self)@.read.state, buffer: *final(parts.1) },
                ..old(self)@
            }),
    {
        (&mut self.inner.io, self.inner.state.borrow_read_mut().buffer_mut())
    }

    /// Returns where the stream of frames stands.
    pub fn read_state(&self) -> (state: State)
        ensures
            state == self@.read.state,
    {
        self.inner.state.borrow_read().state()
    }

    /// One step towards the next frame.
    pub fn next(&mut self, event: FillEvent) -> (step: NextStep<Codec::Item, Codec::Error>) where
        Codec: Decoder,

        requires
            event is Filled ==> reading(old(self)@.read.state),
        ensures
            next_does(
                old(self)@.read,
                old(self)@.codec,
                event,
                final(self)@.read,
                final(self)@.codec,
                step,
            ),
            step is Fill ==> reading(final(self)@.read.state),
            final(self)@ == (FramedReadModel {
                codec: final(self)@.codec,
                read: final(self)@.read,
                ..old(self)@
            }),
    {
        self.inner.next(event)
    }

    /// Equivalent to [`FramedRead::next`] but with custom codec.
    pub fn next_with<C: Decoder>(&mut self, codec: &mut C, event: FillEvent) -> (step: NextStep<
        C::Item,
        C::Error,
    >)
        requires
            event is Filled ==> reading(old(self)@.read.state),
        ensures
            next_does(
                old(self)@.read,
                *old(codec),
                event,
                final(self)@.read,
                *final(codec),
                step,
            ),
            step is Fill ==> reading(final(self)@.read.state),
            final(self)@ == (FramedReadModel { read: final(self)@.read, ..old(self)@ }),
    {
        FramedInner::<IO, C, _>::next_with(codec, &mut self.inner.state, event)
    }

    /// One step of awaiting some new data. Useful to do read timeout. Once done,
    /// the data is at [`FramedRead::data_mut`].
    pub fn peek_data(&mut self, event: FillEvent) -> (step: PeekStep)
        ensures
            peek_does(old(self)@.read, event, final(self)@.read, step),
            final(self)@ == (FramedReadModel { read: final(self)@.read, ..old(self)@ }),
    {
        FramedInner::<IO, Codec, _>::peek_data(&mut self.inner.state, event)
    }

    /// Returns the bytes read and not yet consumed.
    pub fn data_mut(&mut self) -> (data: &mut [u8])
        ensures
            data@ == old(self)@.read.bytes(),
            final(self)@.read.state == old(self)@.read.state,
            final(self)@.read.bytes() == final(data)@,
            same_room(old(self)@.read.buffer, final(self)@.read.buffer),
            final(self)@ == (FramedReadModel { read: final(self)@.read, ..old(self)@ }),
    {
        self.inner.state.borrow_read_mut().data_mut()
    }

    /// Lends the read buffer out to be read into, see [`ReadState::lend`].
    pub fn lend(&mut self, additional: usize) -> (lease: Lease)
        requires
            0 < additional,
            old(self)@.read.bytes().len() + additional <= isize::MAX,
        ensures
            lends(old(self)@.read, additional, final(self)@.read, lease),
            final(self)@ == (FramedReadModel { read: final(self)@.read, ..old(self)@ }),
    {
        self.inner.lend(additional)
    }

    /// Returns the first `count` of the bytes read and not yet consumed, or all if
    /// there are fewer.
    pub fn front(&self, count: usize) -> (bytes: &[u8])
        ensures
            bytes@ == self@.read.bytes().take(share(self@.read.buffer, count) as int),
    {
        self.inner.state.borrow_read().front(count)
    }

    /// One step of an unframed read by a caller with room for `total` bytes.
    pub fn read(&mut self, total: usize, event: ReadEvent) -> (step: ReadStep)
        ensures
            read_does(old(self)@.read, total, event, final(self)@.read, step),
            final(self)@ == (FramedReadModel { read: final(self)@.read, ..old(self)@ }),
    {
        self.inner.read(total, event)
    }

    /// One step of an unframed read into several memory areas, of which the
    /// first has room for `slot` bytes.
    pub fn readv(&mut self, slot: Option<usize>, event: ReadEvent) -> (step: ReadStep)
        ensures
            readv_does(old(self)@.read, slot, event, final(self)@.read, step),
            final(self)@ == (FramedReadModel { read: final(self)@.read, ..old(self)@ }),
    {
        self.inner.readv(slot, event)
    }
}

impl<IO, AnyCodec, T: Decoder> StreamWithCodec<T> for FramedRead<IO, AnyCodec> {
    open spec fn stream(self) -> ReadModel {
        self@.read
    }

    open spec fn differs_in_stream(self, other: Self) -> bool {
        other@ == (FramedReadModel { read: other@.read, ..self@ })
    }

    fn next_with(&mut self, codec: &mut T, event: FillEvent) -> (step: NextStep<
        T::Item,
        T::Error,
    >) {
        FramedInner::<IO, T, _>::next_with(codec, &mut self.inner.state, event)
    }
}

/// An I/O stream that frames are written to.
pub struct FramedWrite<IO, Codec> {
    inner: FramedInner<IO, Codec, WriteState>,
}

/// [`FramedWrite`] as contracts see it.
pub struct FramedWriteModel<IO, Codec> {
    pub io: IO,
    pub codec: Codec,
    pub write: WriteState,
}

impl<IO, Codec> View for FramedWrite<IO, Codec> {
    type V = FramedWriteModel<IO, Codec>;

    closed spec fn view(&self) -> FramedWriteModel<IO, Codec> {
        FramedWriteModel {
            io: self.inner.io,
            codec: self.inner.codec,
            write: self.inner.state.write_half(),
        }
    }
}

impl<IO, Codec> FramedWrite<IO, Codec> {
    /// A framed stream with empty buffers of the usual size.
    pub fn new(io: IO, codec: Codec) -> (framed: Self)
        ensures
            framed@.io == io,
            framed@.codec == codec,
            framed@.write@ == Seq::<u8>::empty(),
            forall|room: usize| #[trigger]
                framed@.write.may_hold(room) ==> INITIAL_CAPACITY <= room,
    {
        Self { inner: FramedInner::new(io, codec, WriteState::default()) }
    }

    /// Returns a reference to the underlying I/O stream wrapped by
    /// `FramedWrite`.
    ///
    /// Note that care should be taken to not tamper with the underlying stream
    /// of data coming in as it may corrupt the stream of frames otherwise
    /// being worked with.
    pub fn get_ref(&self) -> (io: &IO)
        ensures
            *io == self@.io,
    {
        &self.inner.io
    }

    /// Returns a mutable reference to the underlying I/O stream wrapped by
    /// `FramedWrite`.
    ///
    /// Note that care should be taken to not tamper with the underlying stream
    /// of data coming in as it may corrupt the stream of frames otherwise
    /// being worked with.
    pub fn get_mut(&mut self) -> (io: &mut IO)
        ensures
            *io == old(self)@.io,
            final(self)@ == (FramedWriteModel { io: *final(io), ..old(self)@ }),
    {
        &mut self.inner.io
    }

    /// Consumes the `FramedWrite`, returning its underlying I/O stream.
    ///
    /// Note that care should be taken to not tamper with the underlying stream
    /// of data coming in as it may corrupt the stream of frames otherwise
    /// being worked with.
    pub fn into_inner(self) -> (io: IO)
        ensures
            io == self@.io,
    {
        self.inner.io
    }

    /// Returns a reference to the underlying encoder.
    ///
    /// Note that care should be taken to not tamper with the underlying codec
    /// as it may corrupt the stream of frames otherwise being worked with.
    pub fn encoder(&self) -> (codec: &Codec)
        ensures
            *codec == self@.codec,
    {
        &self.inner.codec
    }

    /// Returns a mutable reference to the underlying encoder.
    ///
    /// Note that care should be taken to not tamper with the underlying codec
    /// as it may corrupt the stream of frames otherwise being worked with.
    pub fn encoder_mut(&mut self) -> (codec: &mut Codec)
        ensures
            *codec == old(self)@.codec,
            final(self)@ == (FramedWriteModel { codec: *final(codec), ..old(self)@ }),
    {
        &mut self.inner.codec
    }

    /// Maps the encoder, preserving the buffers and where the stream stands.
    ///
    /// Note that care should be taken to not tamper with the underlying codec
    /// as it may corrupt the stream of frames otherwise being worked with.
    pub fn map_encoder<CodecNew, F>(self, map: F) -> (framed: FramedWrite<IO, CodecNew>) where
        F: FnOnce(Codec) -> CodecNew,

        requires
            call_requires(map, (self@.codec,)),
        ensures
            call_ensures(map, (self@.codec,), framed@.codec),
            framed@.io == self@.io,
            framed@.write == self@.write,
    {
        let FramedInner { io, codec, state } = self.inner;
        FramedWrite { inner: FramedInner { io, codec: map(codec), state } }
    }

    /// Returns a reference to the write buffer.
    pub fn write_buffer(&self) -> (buffer: &BytesMut)
        ensures
            *buffer == self@.write.held(),
    {
        self.inner.state.borrow_write().buffer()
    }

    /// Returns a mutable reference to the write buffer.
    pub fn write_buffer_mut(&mut self) -> (buffer: &mut BytesMut)
        ensures
            *buffer == old(self)@.write.held(),
            final(self)@.write.held() == *final(buffer),
            final(self)@ == (FramedWriteModel { write: final(self)@.write, ..old(self)@ }),
    {
        self.inner.state.borrow_write_mut().buffer_mut()
    }

    /// One step of sending an item.
    pub fn send<Item>(&mut self, item: Item, event: FlushEvent) -> (step: SendStep<
        Item,
        Codec::Error,
    >) where Codec: Encoder<Item>
        ensures
            send_does(
                old(self)@.write.held(),
                old(self)@.codec,
                item,
                event,
                final(self)@.write.held(),
                final(self)@.codec,
                step,
            ),
            final(self)@ == (FramedWriteModel {
                codec: final(self)@.codec,
                write: final(self)@.write,
                ..old(self)@
            }),
    {
        self.inner.send(item, event)
    }

    /// Equivalent to [`FramedWrite::send`] but with custom codec.
    pub fn send_with<C: Encoder<Item>, Item>(
        &mut self,
        codec: &mut C,
        item: Item,
        event: FlushEvent,
    ) -> (step: SendStep<Item, C::Error>)
        ensures
            send_does(
                old(self)@.write.held(),
                *old(codec),
                item,
                event,
                final(self)@.write.held(),
                *final(codec),
                step,
            ),
            final(self)@ == (FramedWriteModel { write: final(self)@.write, ..old(self)@ }),
    {
        FramedInner::<IO, C, _>::send_with(codec, &mut self.inner.state, item, event)
    }

    /// One step of sending what is buffered.
    pub fn flush(&mut self, event: FlushEvent) -> (step: FlushStep<std::io::Error>)
        ensures
            flush_does(old(self)@.write.held(), event, final(self)@.write.held(), step),
            final(self)@ == (FramedWriteModel { write: final(self)@.write, ..old(self)@ }),
    {
        FramedInner::<IO, Codec, _>::flush(&mut self.inner.state, event)
    }

    /// One step of sending what is buffered, for a sink with errors of its own.
    pub fn flush_sink<E: From<std::io::Error>>(&mut self, event: FlushEvent) -> (step: FlushStep<E>)
        ensures
            flush_sink_does(old(self)@.write.held(), event, final(self)@.write.held(), step),
            final(self)@ == (FramedWriteModel { write: final(self)@.write, ..old(self)@ }),
    {
        self.inner.flush_sink(event)
    }

    /// One step of an unframed write.
    pub fn write(&mut self, data: &[u8], event: WriteEvent) -> (step: WriteStep)
        ensures
            write_does(old(self)@.write.held(), data@, event, final(self)@.write.held(), step),
            final(self)@ == (FramedWriteModel { write: final(self)@.write, ..old(self)@ }),
    {
        self.inner.write(data, event)
    }

    /// One step of an unframed write from several memory areas, of which the
    /// first is `slot`.
    pub fn writev(&mut self, slot: Option<&[u8]>, event: WriteEvent) -> (step: WriteStep)
        ensures
            writev_does(
                old(self)@.write.held(),
                match slot {
                    None => None,
                    Some(data) => Some(data@),
                },
                event,
                final(self)@.write.held(),
                step,
            ),
            final(self)@ == (FramedWriteModel { write: final(self)@.write, ..old(self)@ }),
    {
        self.inner.writev(slot, event)
    }

    /// One step of shutting the stream down.
    pub fn shutdown(&mut self, event: ShutdownEvent) -> (step: ShutdownStep<std::io::Error>)
        ensures
            shutdown_does(old(self)@.write.held(), event, final(self)@.write.held(), step),
            final(self)@ == (FramedWriteModel { write: final(self)@.write, ..old(self)@ }),
    {
        self.inner.shutdown(event)
    }

    /// One step of closing a sink with errors of its own.
    pub fn close<E: From<std::io::Error>>(&mut self, event: ShutdownEvent) -> (step: ShutdownStep<
        E,
    >)
        ensures
            close_does(old(self)@.write.held(), event, final(self)@.write.held(), step),
            final(self)@ == (FramedWriteModel { write: final(self)@.write, ..old(self)@ }),
    {
        self.inner.close(event)
    }
}

impl<IO, AnyCodec, T: Encoder<Item>, Item> SinkWithCodec<T, Item> for FramedWrite<IO, AnyCodec> {
    open spec fn sink(self) -> WriteState {
        self@.write
    }

    open spec fn differs_in_sink(self, other: Self) -> bool {
        other@ == (FramedWriteModel { write: other@.write, ..self@ })
    }

    fn send_with(&mut self, codec: &mut T, item: Item, event: FlushEvent) -> (step: SendStep<
        Item,
        T::Error,
    >) {
        FramedInner::<IO, T, _>::send_with(codec, &mut self.inner.state, item, event)
    }

    fn flush(&mut self, event: FlushEvent) -> (step: FlushStep<T::Error>) {
        self.inner.flush_sink(event)
    }
}

} // verus!
