//! What the operations of framed streams do, each in terms of the half of the
//! stream that it works on; the rest of the stream stays as it is. What is proved
//! of the halves in the other modules thereby holds of [`Framed`], [`FramedRead`]
//! and [`FramedWrite`].
use vstd::prelude::*;
use bytes::BytesMut;
use crate::buffer::room_grows_to;
use crate::framed::{
    Framed, FramedModel, FramedRead, FramedReadModel, FramedWrite, FramedWriteModel, SinkWithCodec,
    StreamWithCodec,
};
use crate::output_laws::same_memory;
use crate::read::{
    FillEvent, Lease, NextStep, PeekStep, ReadEvent, ReadModel, ReadStep, State, INITIAL_CAPACITY,
};
use crate::read::{fresh, lends, next_does, peek_does, read_does, readv_does};
use crate::step_laws::as_fits;
use crate::sync_codec::{ends, Decoded, Decoder, Encoder};
use crate::write::{
    close_does, flush_does, flush_sink_does, send_does, shutdown_does, write_does, writev_does,
};
use crate::write::{
    FlushEvent, FlushStep, SendStep, ShutdownEvent, ShutdownStep, WriteEvent, WriteState, WriteStep,
};

verus! {

/// [`Framed::next`] takes a step towards the next frame with the codec of the
/// stream, and touches nothing else.
pub proof fn law_framed_next<IO, Codec: Decoder>(
    framed: &mut Framed<IO, Codec>,
    event: FillEvent,
    step: NextStep<Codec::Item, Codec::Error>,
)
    requires
        call_ensures(Framed::<IO, Codec>::next, (framed, event), step),
    ensures
        next_does(
            old(framed)@.read,
            old(framed)@.codec,
            event,
            final(framed)@.read,
            final(framed)@.codec,
            step,
        ),
        final(framed)@ == (FramedModel {
            codec: final(framed)@.codec,
            read: final(framed)@.read,
            ..old(framed)@
        }),
{
}

/// [`Framed::next_with`] takes the same step with
/// the codec given; the codec of the stream stays.
pub proof fn law_framed_next_with<IO, Codec, C: Decoder>(
    framed: &mut Framed<IO, Codec>,
    codec: &mut C,
    event: FillEvent,
    step: NextStep<C::Item, C::Error>,
)
    requires
        call_ensures(Framed::<IO, Codec>::next_with::<C>, (framed, codec, event), step),
    ensures
        next_does(
            old(framed)@.read,
            *old(codec),
            event,
            final(framed)@.read,
            *final(codec),
            step,
        ),
        final(framed)@ == (FramedModel { read: final(framed)@.read, ..old(framed)@ }),
{
}

/// [`StreamWithCodec::next_with`] of a [`Framed`] takes the same step with
/// the codec given; the codec of the stream stays.
pub proof fn law_framed_stream_next_with<IO, Codec, C: Decoder>(
    framed: &mut Framed<IO, Codec>,
    codec: &mut C,
    event: FillEvent,
    step: NextStep<C::Item, C::Error>,
)
    requires
        call_ensures(
            <Framed<IO, Codec> as StreamWithCodec<C>>::next_with,
            (framed, codec, event),
            step,
        ),
    ensures
        next_does(
            old(framed)@.read,
            *old(codec),
            event,
            final(framed)@.read,
            *final(codec),
            step,
        ),
        final(framed)@ == (FramedModel { read: final(framed)@.read, ..old(framed)@ }),
{
}

/// [`Framed::peek_data`] takes a step towards having data at hand.
pub proof fn law_framed_peek_data<IO, Codec>(
    framed: &mut Framed<IO, Codec>,
    event: FillEvent,
    step: PeekStep,
)
    requires
        call_ensures(Framed::<IO, Codec>::peek_data, (framed, event), step),
    ensures
        peek_does(old(framed)@.read, event, final(framed)@.read, step),
        final(framed)@ == (FramedModel { read: final(framed)@.read, ..old(framed)@ }),
{
}

/// [`Framed::data_mut`] lends out the bytes that are at hand, and what is made of
/// them is at hand then.
pub proof fn law_framed_data_mut<IO, Codec>(
    framed: &mut Framed<IO, Codec>,
    data: &mut [u8],
)
    requires
        call_ensures(Framed::<IO, Codec>::data_mut, (framed,), data),
    ensures
        old(data)@ == old(framed)@.read.bytes(),
        final(framed)@.read.bytes() == final(data)@,
        final(framed)@.read.state == old(framed)@.read.state,
        same_memory(old(framed)@.read.buffer, final(framed)@.read.buffer),
        final(framed)@ == (FramedModel { read: final(framed)@.read, ..old(framed)@ }),
{
}

/// [`Framed::lend`] lends the read buffer out.
pub proof fn law_framed_lend<IO, Codec>(
    framed: &mut Framed<IO, Codec>,
    additional: usize,
    lease: Lease,
)
    requires
        call_ensures(Framed::<IO, Codec>::lend, (framed, additional), lease),
    ensures
        lends(old(framed)@.read, additional, final(framed)@.read, lease),
        final(framed)@ == (FramedModel { read: final(framed)@.read, ..old(framed)@ }),
{
}

/// [`Framed::front`] shows the first bytes at hand, as many as are asked for or all.
pub proof fn law_framed_front<IO, Codec>(
    framed: &Framed<IO, Codec>,
    count: usize,
    bytes: &[u8],
)
    requires
        call_ensures(Framed::<IO, Codec>::front, (framed, count), bytes),
    ensures
        bytes@ == framed@.read.bytes().take(as_fits(framed@.read.bytes().len(), count)),
{
}

/// [`Framed::read`] takes a step of an unframed read.
pub proof fn law_framed_read<IO, Codec>(
    framed: &mut Framed<IO, Codec>,
    total: usize,
    event: ReadEvent,
    step: ReadStep,
)
    requires
        call_ensures(Framed::<IO, Codec>::read, (framed, total, event), step),
    ensures
        read_does(old(framed)@.read, total, event, final(framed)@.read, step),
        final(framed)@ == (FramedModel { read: final(framed)@.read, ..old(framed)@ }),
{
}

/// [`Framed::readv`] takes a step of an unframed read into several memory areas.
pub proof fn law_framed_readv<IO, Codec>(
    framed: &mut Framed<IO, Codec>,
    slot: Option<usize>,
    event: ReadEvent,
    step: ReadStep,
)
    requires
        call_ensures(Framed::<IO, Codec>::readv, (framed, slot, event), step),
    ensures
        readv_does(old(framed)@.read, slot, event, final(framed)@.read, step),
        final(framed)@ == (FramedModel { read: final(framed)@.read, ..old(framed)@ }),
{
}

/// [`FramedRead::next`] takes a step towards the next frame with the codec of the
/// stream, and touches nothing else.
pub proof fn law_framed_read_next<IO, Codec: Decoder>(
    framed: &mut FramedRead<IO, Codec>,
    event: FillEvent,
    step: NextStep<Codec::Item, Codec::Error>,
)
    requires
        call_ensures(FramedRead::<IO, Codec>::next, (framed, event), step),
    ensures
        next_does(
            old(framed)@.read,
            old(framed)@.codec,
            event,
            final(framed)@.read,
            final(framed)@.codec,
            step,
        ),
        final(framed)@ == (FramedReadModel {
            codec: final(framed)@.codec,
            read: final(framed)@.read,
            ..old(framed)@
        }),
{
}

/// [`FramedRead::next_with`] takes the same step with
/// the codec given; the codec of the stream stays.
pub proof fn law_framed_read_next_with<IO, Codec, C: Decoder>(
    framed: &mut FramedRead<IO, Codec>,
    codec: &mut C,
    event: FillEvent,
    step: NextStep<C::Item, C::Error>,
)
    requires
        call_ensures(FramedRead::<IO, Codec>::next_with::<C>, (framed, codec, event), step),
    ensures
        next_does(
            old(framed)@.read,
            *old(codec),
            event,
            final(framed)@.read,
            *final(codec),
            step,
        ),
        final(framed)@ == (FramedReadModel { read: final(framed)@.read, ..old(framed)@ }),
{
}

/// [`StreamWithCodec::next_with`] of a [`FramedRead`] takes the same step with
/// the codec given; the codec of the stream stays.
pub proof fn law_framed_read_stream_next_with<IO, Codec, C: Decoder>(
    framed: &mut FramedRead<IO, Codec>,
    codec: &mut C,
    event: FillEvent,
    step: NextStep<C::Item, C::Error>,
)
    requires
        call_ensures(
            <FramedRead<IO, Codec> as StreamWithCodec<C>>::next_with,
            (framed, codec, event),
            step,
        ),
    ensures
        next_does(
            old(framed)@.read,
            *old(codec),
            event,
            final(framed)@.read,
            *final(codec),
            step,
        ),
        final(framed)@ == (FramedReadModel { read: final(framed)@.read, ..old(framed)@ }),
{
}

/// [`FramedRead::peek_data`] takes a step towards having data at hand.
pub proof fn law_framed_read_peek_data<IO, Codec>(
    framed: &mut FramedRead<IO, Codec>,
    event: FillEvent,
    step: PeekStep,
)
    requires
        call_ensures(FramedRead::<IO, Codec>::peek_data, (framed, event), step),
    ensures
        peek_does(old(framed)@.read, event, final(framed)@.read, step),
        final(framed)@ == (FramedReadModel { read: final(framed)@.read, ..old(framed)@ }),
{
}

/// [`FramedRead::data_mut`] lends out the bytes that are at hand, and what is made of
/// them is at hand then.
pub proof fn law_framed_read_data_mut<IO, Codec>(
    framed: &mut FramedRead<IO, Codec>,
    data: &mut [u8],
)
    requires
        call_ensures(FramedRead::<IO, Codec>::data_mut, (framed,), data),
    ensures
        old(data)@ == old(framed)@.read.bytes(),
        final(framed)@.read.bytes() == final(data)@,
        final(framed)@.read.state == old(framed)@.read.state,
        same_memory(old(framed)@.read.buffer, final(framed)@.read.buffer),
        final(framed)@ == (FramedReadModel { read: final(framed)@.read, ..old(framed)@ }),
{
}

/// [`FramedRead::lend`] lends the read buffer out.
pub proof fn law_framed_read_lend<IO, Codec>(
    framed: &mut FramedRead<IO, Codec>,
    additional: usize,
    lease: Lease,
)
    requires
        call_ensures(FramedRead::<IO, Codec>::lend, (framed, additional), lease),
    ensures
        lends(old(framed)@.read, additional, final(framed)@.read, lease),
        final(framed)@ == (FramedReadModel { read: final(framed)@.read, ..old(framed)@ }),
{
}

/// [`FramedRead::front`] shows the first bytes at hand, as many as are asked for or all.
pub proof fn law_framed_read_front<IO, Codec>(
    framed: &FramedRead<IO, Codec>,
    count: usize,
    bytes: &[u8],
)
    requires
        call_ensures(FramedRead::<IO, Codec>::front, (framed, count), bytes),
    ensures
        bytes@ == framed@.read.bytes().take(as_fits(framed@.read.bytes().len(), count)),
{
}

/// [`FramedRead::read`] takes a step of an unframed read.
pub proof fn law_framed_read_read<IO, Codec>(
    framed: &mut FramedRead<IO, Codec>,
    total: usize,
    event: ReadEvent,
    step: ReadStep,
)
    requires
        call_ensures(FramedRead::<IO, Codec>::read, (framed, total, event), step),
    ensures
        read_does(old(framed)@.read, total, event, final(framed)@.read, step),
        final(framed)@ == (FramedReadModel { read: final(framed)@.read, ..old(framed)@ }),
{
}

/// [`FramedRead::readv`] takes a step of an unframed read into several memory areas.
pub proof fn law_framed_read_readv<IO, Codec>(
    framed: &mut FramedRead<IO, Codec>,
    slot: Option<usize>,
    event: ReadEvent,
    step: ReadStep,
)
    requires
        call_ensures(FramedRead::<IO, Codec>::readv, (framed, slot, event), step),
    ensures
        readv_does(old(framed)@.read, slot, event, final(framed)@.read, step),
        final(framed)@ == (FramedReadModel { read: final(framed)@.read, ..old(framed)@ }),
{
}

/// [`Framed::send`] takes a step of sending an item with the codec of the stream, and
/// touches nothing else.
pub proof fn law_framed_send<IO, Codec: Encoder<Item>, Item>(
    framed: &mut Framed<IO, Codec>,
    item: Item,
    event: FlushEvent,
    step: SendStep<Item, Codec::Error>,
)
    requires
        call_ensures(Framed::<IO, Codec>::send::<Item>, (framed, item, event), step),
    ensures
        send_does(
            old(framed)@.write.held(),
            old(framed)@.codec,
            item,
            event,
            final(framed)@.write.held(),
            final(framed)@.codec,
            step,
        ),
        final(framed)@ == (FramedModel {
            codec: final(framed)@.codec,
            write: final(framed)@.write,
            ..old(framed)@
        }),
{
}

/// [`Framed::send_with`] takes the same step with
/// the codec given; the codec of the stream stays.
pub proof fn law_framed_send_with<IO, Codec, C: Encoder<Item>, Item>(
    framed: &mut Framed<IO, Codec>,
    codec: &mut C,
    item: Item,
    event: FlushEvent,
    step: SendStep<Item, C::Error>,
)
    requires
        call_ensures(Framed::<IO, Codec>::send_with::<C, Item>, (framed, codec, item, event), step),
    ensures
        send_does(
            old(framed)@.write.held(),
            *old(codec),
            item,
            event,
            final(framed)@.write.held(),
            *final(codec),
            step,
        ),
        final(framed)@ == (FramedModel { write: final(framed)@.write, ..old(framed)@ }),
{
}

/// [`SinkWithCodec::send_with`] of a [`Framed`] takes the same step with
/// the codec given; the codec of the stream stays.
pub proof fn law_framed_sink_send_with<IO, Codec, C: Encoder<Item>, Item>(
    framed: &mut Framed<IO, Codec>,
    codec: &mut C,
    item: Item,
    event: FlushEvent,
    step: SendStep<Item, C::Error>,
)
    requires
        call_ensures(
            <Framed<IO, Codec> as SinkWithCodec<C, Item>>::send_with,
            (framed, codec, item, event),
            step,
        ),
    ensures
        send_does(
            old(framed)@.write.held(),
            *old(codec),
            item,
            event,
            final(framed)@.write.held(),
            *final(codec),
            step,
        ),
        final(framed)@ == (FramedModel { write: final(framed)@.write, ..old(framed)@ }),
{
}

/// [`Framed::flush`] takes a step of sending what is buffered.
pub proof fn law_framed_flush<IO, Codec>(
    framed: &mut Framed<IO, Codec>,
    event: FlushEvent,
    step: FlushStep<std::io::Error>,
)
    requires
        call_ensures(Framed::<IO, Codec>::flush, (framed, event), step),
    ensures
        flush_does(old(framed)@.write.held(), event, final(framed)@.write.held(), step),
        final(framed)@ == (FramedModel { write: final(framed)@.write, ..old(framed)@ }),
{
}

/// [`Framed::flush_sink`] takes a step of sending what is buffered in a sink.
pub proof fn law_framed_flush_sink<IO, Codec, E: From<std::io::Error>>(
    framed: &mut Framed<IO, Codec>,
    event: FlushEvent,
    step: FlushStep<E>,
)
    requires
        call_ensures(Framed::<IO, Codec>::flush_sink::<E>, (framed, event), step),
    ensures
        flush_sink_does(old(framed)@.write.held(), event, final(framed)@.write.held(), step),
        final(framed)@ == (FramedModel { write: final(framed)@.write, ..old(framed)@ }),
{
}

/// [`SinkWithCodec::flush`] of a [`Framed`] takes the same step.
pub proof fn law_framed_sink_flush<IO, Codec, C: Encoder<Item>, Item>(
    framed: &mut Framed<IO, Codec>,
    event: FlushEvent,
    step: FlushStep<C::Error>,
)
    requires
        call_ensures(
            <Framed<IO, Codec> as SinkWithCodec<C, Item>>::flush,
            (framed, event),
            step,
        ),
    ensures
        flush_sink_does(old(framed)@.write.held(), event, final(framed)@.write.held(), step),
        final(framed)@ == (FramedModel { write: final(framed)@.write, ..old(framed)@ }),
{
}

/// [`Framed::write`] takes a step of an unframed write.
pub proof fn law_framed_write<IO, Codec>(
    framed: &mut Framed<IO, Codec>,
    data: &[u8],
    event: WriteEvent,
    step: WriteStep,
)
    requires
        call_ensures(Framed::<IO, Codec>::write, (framed, data, event), step),
    ensures
        write_does(old(framed)@.write.held(), data@, event, final(framed)@.write.held(), step),
        final(framed)@ == (FramedModel { write: final(framed)@.write, ..old(framed)@ }),
{
}

/// [`Framed::writev`] takes a step of an unframed write from several memory areas.
pub proof fn law_framed_writev<IO, Codec>(
    framed: &mut Framed<IO, Codec>,
    slot: Option<&[u8]>,
    event: WriteEvent,
    step: WriteStep,
)
    requires
        call_ensures(Framed::<IO, Codec>::writev, (framed, slot, event), step),
    ensures
        writev_does(
            old(framed)@.write.held(),
            match slot {
                None => None,
                Some(data) => Some(data@),
            },
            event,
            final(framed)@.write.held(),
            step,
        ),
        final(framed)@ == (FramedModel { write: final(framed)@.write, ..old(framed)@ }),
{
}

/// [`Framed::shutdown`] takes a step of shutting the stream down.
pub proof fn law_framed_shutdown<IO, Codec>(
    framed: &mut Framed<IO, Codec>,
    event: ShutdownEvent,
    step: ShutdownStep<std::io::Error>,
)
    requires
        call_ensures(Framed::<IO, Codec>::shutdown, (framed, event), step),
    ensures
        shutdown_does(old(framed)@.write.held(), event, final(framed)@.write.held(), step),
        final(framed)@ == (FramedModel { write: final(framed)@.write, ..old(framed)@ }),
{
}

/// [`Framed::close`] takes a step of closing a sink.
pub proof fn law_framed_close<IO, Codec, E: From<std::io::Error>>(
    framed: &mut Framed<IO, Codec>,
    event: ShutdownEvent,
    step: ShutdownStep<E>,
)
    requires
        call_ensures(Framed::<IO, Codec>::close::<E>, (framed, event), step),
    ensures
        close_does(old(framed)@.write.held(), event, final(framed)@.write.held(), step),
        final(framed)@ == (FramedModel { write: final(framed)@.write, ..old(framed)@ }),
{
}

/// [`FramedWrite::send`] takes a step of sending an item with the codec of the stream, and
/// touches nothing else.
pub proof fn law_framed_write_send<IO, Codec: Encoder<Item>, Item>(
    framed: &mut FramedWrite<IO, Codec>,
    item: Item,
    event: FlushEvent,
    step: SendStep<Item, Codec::Error>,
)
    requires
        call_ensures(FramedWrite::<IO, Codec>::send::<Item>, (framed, item, event), step),
    ensures
        send_does(
            old(framed)@.write.held(),
            old(framed)@.codec,
            item,
            event,
            final(framed)@.write.held(),
            final(framed)@.codec,
            step,
        ),
        final(framed)@ == (FramedWriteModel {
            codec: final(framed)@.codec,
            write: final(framed)@.write,
            ..old(framed)@
        }),
{
}

/// [`FramedWrite::send_with`] takes the same step with
/// the codec given; the codec of the stream stays.
pub proof fn law_framed_write_send_with<IO, Codec, C: Encoder<Item>, Item>(
    framed: &mut FramedWrite<IO, Codec>,
    codec: &mut C,
    item: Item,
    event: FlushEvent,
    step: SendStep<Item, C::Error>,
)
    requires
        call_ensures(
            FramedWrite::<IO, Codec>::send_with::<C, Item>,
            (framed, codec, item, event),
            step,
        ),
    ensures
        send_does(
            old(framed)@.write.held(),
            *old(codec),
            item,
            event,
            final(framed)@.write.held(),
            *final(codec),
            step,
        ),
        final(framed)@ == (FramedWriteModel { write: final(framed)@.write, ..old(framed)@ }),
{
}

/// [`SinkWithCodec::send_with`] of a [`FramedWrite`] takes the same step with
/// the codec given; the codec of the stream stays.
pub proof fn law_framed_write_sink_send_with<IO, Codec, C: Encoder<Item>, Item>(
    framed: &mut FramedWrite<IO, Codec>,
    codec: &mut C,
    item: Item,
    event: FlushEvent,
    step: SendStep<Item, C::Error>,
)
    requires
        call_ensures(
            <FramedWrite<IO, Codec> as SinkWithCodec<C, Item>>::send_with,
            (framed, codec, item, event),
            step,
        ),
    ensures
        send_does(
            old(framed)@.write.held(),
            *old(codec),
            item,
            event,
            final(framed)@.write.held(),
            *final(codec),
            step,
        ),
        final(framed)@ == (FramedWriteModel { write: final(framed)@.write, ..old(framed)@ }),
{
}

/// [`FramedWrite::flush`] takes a step of sending what is buffered.
pub proof fn law_framed_write_flush<IO, Codec>(
    framed: &mut FramedWrite<IO, Codec>,
    event: FlushEvent,
    step: FlushStep<std::io::Error>,
)
    requires
        call_ensures(FramedWrite::<IO, Codec>::flush, (framed, event), step),
    ensures
        flush_does(old(framed)@.write.held(), event, final(framed)@.write.held(), step),
        final(framed)@ == (FramedWriteModel { write: final(framed)@.write, ..old(framed)@ }),
{
}

/// [`FramedWrite::flush_sink`] takes a step of sending what is buffered in a sink.
pub proof fn law_framed_write_flush_sink<IO, Codec, E: From<std::io::Error>>(
    framed: &mut FramedWrite<IO, Codec>,
    event: FlushEvent,
    step: FlushStep<E>,
)
    requires
        call_ensures(FramedWrite::<IO, Codec>::flush_sink::<E>, (framed, event), step),
    ensures
        flush_sink_does(old(framed)@.write.held(), event, final(framed)@.write.held(), step),
        final(framed)@ == (FramedWriteModel { write: final(framed)@.write, ..old(framed)@ }),
{
}

/// [`SinkWithCodec::flush`] of a [`FramedWrite`] takes the same step.
pub proof fn law_framed_write_sink_flush<IO, Codec, C: Encoder<Item>, Item>(
    framed: &mut FramedWrite<IO, Codec>,
    event: FlushEvent,
    step: FlushStep<C::Error>,
)
    requires
        call_ensures(
            <FramedWrite<IO, Codec> as SinkWithCodec<C, Item>>::flush,
            (framed, event),
            step,
        ),
    ensures
        flush_sink_does(old(framed)@.write.held(), event, final(framed)@.write.held(), step),
        final(framed)@ == (FramedWriteModel { write: final(framed)@.write, ..old(framed)@ }),
{
}

/// [`FramedWrite::write`] takes a step of an unframed write.
pub proof fn law_framed_write_write<IO, Codec>(
    framed: &mut FramedWrite<IO, Codec>,
    data: &[u8],
    event: WriteEvent,
    step: WriteStep,
)
    requires
        call_ensures(FramedWrite::<IO, Codec>::write, (framed, data, event), step),
    ensures
        write_does(old(framed)@.write.held(), data@, event, final(framed)@.write.held(), step),
        final(framed)@ == (FramedWriteModel { write: final(framed)@.write, ..old(framed)@ }),
{
}

/// [`FramedWrite::writev`] takes a step of an unframed write from several memory areas.
pub proof fn law_framed_write_writev<IO, Codec>(
    framed: &mut FramedWrite<IO, Codec>,
    slot: Option<&[u8]>,
    event: WriteEvent,
    step: WriteStep,
)
    requires
        call_ensures(FramedWrite::<IO, Codec>::writev, (framed, slot, event), step),
    ensures
        writev_does(
            old(framed)@.write.held(),
            match slot {
                None => None,
                Some(data) => Some(data@),
            },
            event,
            final(framed)@.write.held(),
            step,
        ),
        final(framed)@ == (FramedWriteModel { write: final(framed)@.write, ..old(framed)@ }),
{
}

/// [`FramedWrite::shutdown`] takes a step of shutting the stream down.
pub proof fn law_framed_write_shutdown<IO, Codec>(
    framed: &mut FramedWrite<IO, Codec>,
    event: ShutdownEvent,
    step: ShutdownStep<std::io::Error>,
)
    requires
        call_ensures(FramedWrite::<IO, Codec>::shutdown, (framed, event), step),
    ensures
        shutdown_does(old(framed)@.write.held(), event, final(framed)@.write.held(), step),
        final(framed)@ == (FramedWriteModel { write: final(framed)@.write, ..old(framed)@ }),
{
}

/// [`FramedWrite::close`] takes a step of closing a sink.
pub proof fn law_framed_write_close<IO, Codec, E: From<std::io::Error>>(
    framed: &mut FramedWrite<IO, Codec>,
    event: ShutdownEvent,
    step: ShutdownStep<E>,
)
    requires
        call_ensures(FramedWrite::<IO, Codec>::close::<E>, (framed, event), step),
    ensures
        close_does(old(framed)@.write.held(), event, final(framed)@.write.held(), step),
        final(framed)@ == (FramedWriteModel { write: final(framed)@.write, ..old(framed)@ }),
{
}

/// [`Framed::new`] starts with the stream and the codec given and with empty buffers
/// of the usual size.
pub proof fn law_framed_new<IO, Codec>(
    io: IO,
    codec: Codec,
    framed: Framed<IO, Codec>,
)
    requires
        call_ensures(Framed::<IO, Codec>::new, (io, codec), framed),
    ensures
        framed@.io == io,
        framed@.codec == codec,
        fresh(framed@.read, INITIAL_CAPACITY),
        framed@.write@ == Seq::<u8>::empty(),
        forall|room: usize| #[trigger]
            framed@.write.may_hold(room) ==> INITIAL_CAPACITY <= room,
{
}

/// [`Framed::with_capacity`] does the same, with the room asked for in the buffer
/// for reading.
pub proof fn law_framed_with_capacity<IO, Codec>(
    io: IO,
    codec: Codec,
    capacity: usize,
    framed: Framed<IO, Codec>,
)
    requires
        call_ensures(Framed::<IO, Codec>::with_capacity, (io, codec, capacity), framed),
    ensures
        framed@.io == io,
        framed@.codec == codec,
        fresh(framed@.read, capacity),
        framed@.write@ == Seq::<u8>::empty(),
        forall|room: usize| #[trigger]
            framed@.write.may_hold(room) ==> INITIAL_CAPACITY <= room,
{
}

/// [`Framed::map_codec`] changes the codec, as the closure does, and keeps everything
/// else.
pub proof fn law_framed_map_codec<IO, Codec, CodecNew, F: FnOnce(Codec) -> CodecNew>(
    framed: Framed<IO, Codec>,
    map: F,
    mapped: Framed<IO, CodecNew>,
)
    requires
        call_ensures(Framed::<IO, Codec>::map_codec::<CodecNew, F>, (framed, map), mapped),
    ensures
        call_ensures(map, (framed@.codec,), mapped@.codec),
        mapped@.io == framed@.io,
        mapped@.read == framed@.read,
        mapped@.write == framed@.write,
{
}

/// What a [`Framed`] shows of itself is what it works with.
pub proof fn law_framed_shows_its_parts<IO, Codec>(
    framed: Framed<IO, Codec>,
    io: &IO,
    inner: IO,
    codec: &Codec,
    read: &BytesMut,
    state: State,
    write: &BytesMut,
)
    requires
        call_ensures(Framed::<IO, Codec>::get_ref, (&framed,), io),
        call_ensures(Framed::<IO, Codec>::into_inner, (framed,), inner),
        call_ensures(Framed::<IO, Codec>::codec, (&framed,), codec),
        call_ensures(Framed::<IO, Codec>::read_buffer, (&framed,), read),
        call_ensures(Framed::<IO, Codec>::read_state, (&framed,), state),
        call_ensures(Framed::<IO, Codec>::write_buffer, (&framed,), write),
    ensures
        *io == framed@.io,
        inner == framed@.io,
        *codec == framed@.codec,
        *read == framed@.read.buffer,
        state == framed@.read.state,
        *write == framed@.write.held(),
{
}

/// [`Framed::get_mut`] lends out the stream and nothing else.
pub proof fn law_framed_get_mut<IO, Codec>(
    framed: &mut Framed<IO, Codec>,
    io: &mut IO,
)
    requires
        call_ensures(Framed::<IO, Codec>::get_mut, (framed,), io),
    ensures
        *old(io) == old(framed)@.io,
        final(framed)@ == (FramedModel { io: *final(io), ..old(framed)@ }),
{
}

/// [`Framed::codec_mut`] lends out the codec and nothing else.
pub proof fn law_framed_codec_mut<IO, Codec>(
    framed: &mut Framed<IO, Codec>,
    codec: &mut Codec,
)
    requires
        call_ensures(Framed::<IO, Codec>::codec_mut, (framed,), codec),
    ensures
        *old(codec) == old(framed)@.codec,
        final(framed)@ == (FramedModel { codec: *final(codec), ..old(framed)@ }),
{
}

/// [`Framed::read_buffer_mut`] lends out the buffer for reading and nothing else.
pub proof fn law_framed_read_buffer_mut<IO, Codec>(
    framed: &mut Framed<IO, Codec>,
    buffer: &mut BytesMut,
)
    requires
        call_ensures(Framed::<IO, Codec>::read_buffer_mut, (framed,), buffer),
    ensures
        *old(buffer) == old(framed)@.read.buffer,
        final(framed)@ == (FramedModel {
            read: ReadModel { state: old(framed)@.read.state, buffer: *final(buffer) },
            ..old(framed)@
        }),
{
}

/// [`Framed::read_state_mut`] lends out the stream and the buffer for reading, and
/// nothing else.
pub proof fn law_framed_read_state_mut<IO, Codec>(
    framed: &mut Framed<IO, Codec>,
    io: &mut IO,
    buffer: &mut BytesMut,
)
    requires
        call_ensures(Framed::<IO, Codec>::read_state_mut, (framed,), (io, buffer)),
    ensures
        *old(io) == old(framed)@.io,
        *old(buffer) == old(framed)@.read.buffer,
        final(framed)@ == (FramedModel {
            io: *final(io),
            read: ReadModel { state: old(framed)@.read.state, buffer: *final(buffer) },
            ..old(framed)@
        }),
{
}

/// [`Framed::write_buffer_mut`] lends out the buffer for writing and nothing else.
pub proof fn law_framed_write_buffer_mut<IO, Codec>(
    framed: &mut Framed<IO, Codec>,
    buffer: &mut BytesMut,
)
    requires
        call_ensures(Framed::<IO, Codec>::write_buffer_mut, (framed,), buffer),
    ensures
        *old(buffer) == old(framed)@.write.held(),
        final(framed)@.write.held() == *final(buffer),
        final(framed)@ == (FramedModel { write: final(framed)@.write, ..old(framed)@ }),
{
}

/// [`FramedRead::new`] starts with the stream and the codec given and with empty buffers
/// of the usual size.
pub proof fn law_framed_read_new<IO, Codec>(
    io: IO,
    codec: Codec,
    framed: FramedRead<IO, Codec>,
)
    requires
        call_ensures(FramedRead::<IO, Codec>::new, (io, codec), framed),
    ensures
        framed@.io == io,
        framed@.codec == codec,
        fresh(framed@.read, INITIAL_CAPACITY),
{
}

/// [`FramedRead::with_capacity`] does the same, with the room asked for in the buffer
/// for reading.
pub proof fn law_framed_read_with_capacity<IO, Codec>(
    io: IO,
    codec: Codec,
    capacity: usize,
    framed: FramedRead<IO, Codec>,
)
    requires
        call_ensures(FramedRead::<IO, Codec>::with_capacity, (io, codec, capacity), framed),
    ensures
        framed@.io == io,
        framed@.codec == codec,
        fresh(framed@.read, capacity),
{
}

/// [`FramedRead::map_decoder`] changes the codec, as the closure does, and keeps everything
/// else.
pub proof fn law_framed_read_map_decoder<IO, Codec, CodecNew, F: FnOnce(Codec) -> CodecNew>(
    framed: FramedRead<IO, Codec>,
    map: F,
    mapped: FramedRead<IO, CodecNew>,
)
    requires
        call_ensures(FramedRead::<IO, Codec>::map_decoder::<CodecNew, F>, (framed, map), mapped),
    ensures
        call_ensures(map, (framed@.codec,), mapped@.codec),
        mapped@.io == framed@.io,
        mapped@.read == framed@.read,
{
}

/// What a [`FramedRead`] shows of itself is what it works with.
pub proof fn law_framed_read_shows_its_parts<IO, Codec>(
    framed: FramedRead<IO, Codec>,
    io: &IO,
    inner: IO,
    codec: &Codec,
    read: &BytesMut,
    state: State,
)
    requires
        call_ensures(FramedRead::<IO, Codec>::get_ref, (&framed,), io),
        call_ensures(FramedRead::<IO, Codec>::into_inner, (framed,), inner),
        call_ensures(FramedRead::<IO, Codec>::decoder, (&framed,), codec),
        call_ensures(FramedRead::<IO, Codec>::read_buffer, (&framed,), read),
        call_ensures(FramedRead::<IO, Codec>::read_state, (&framed,), state),
    ensures
        *io == framed@.io,
        inner == framed@.io,
        *codec == framed@.codec,
        *read == framed@.read.buffer,
        state == framed@.read.state,
{
}

/// [`FramedRead::get_mut`] lends out the stream and nothing else.
pub proof fn law_framed_read_get_mut<IO, Codec>(
    framed: &mut FramedRead<IO, Codec>,
    io: &mut IO,
)
    requires
        call_ensures(FramedRead::<IO, Codec>::get_mut, (framed,), io),
    ensures
        *old(io) == old(framed)@.io,
        final(framed)@ == (FramedReadModel { io: *final(io), ..old(framed)@ }),
{
}

/// [`FramedRead::decoder_mut`] lends out the codec and nothing else.
pub proof fn law_framed_read_decoder_mut<IO, Codec>(
    framed: &mut FramedRead<IO, Codec>,
    codec: &mut Codec,
)
    requires
        call_ensures(FramedRead::<IO, Codec>::decoder_mut, (framed,), codec),
    ensures
        *old(codec) == old(framed)@.codec,
        final(framed)@ == (FramedReadModel { codec: *final(codec), ..old(framed)@ }),
{
}

/// [`FramedRead::read_buffer_mut`] lends out the buffer for reading and nothing else.
pub proof fn law_framed_read_read_buffer_mut<IO, Codec>(
    framed: &mut FramedRead<IO, Codec>,
    buffer: &mut BytesMut,
)
    requires
        call_ensures(FramedRead::<IO, Codec>::read_buffer_mut, (framed,), buffer),
    ensures
        *old(buffer) == old(framed)@.read.buffer,
        final(framed)@ == (FramedReadModel {
            read: ReadModel { state: old(framed)@.read.state, buffer: *final(buffer) },
            ..old(framed)@
        }),
{
}

/// [`FramedRead::read_state_mut`] lends out the stream and the buffer for reading, and
/// nothing else.
pub proof fn law_framed_read_read_state_mut<IO, Codec>(
    framed: &mut FramedRead<IO, Codec>,
    io: &mut IO,
    buffer: &mut BytesMut,
)
    requires
        call_ensures(FramedRead::<IO, Codec>::read_state_mut, (framed,), (io, buffer)),
    ensures
        *old(io) == old(framed)@.io,
        *old(buffer) == old(framed)@.read.buffer,
        final(framed)@ == (FramedReadModel {
            io: *final(io),
            read: ReadModel { state: old(framed)@.read.state, buffer: *final(buffer) },
            ..old(framed)@
        }),
{
}

/// [`FramedWrite::new`] starts with the stream and the codec given and with empty buffers
/// of the usual size.
pub proof fn law_framed_write_new<IO, Codec>(
    io: IO,
    codec: Codec,
    framed: FramedWrite<IO, Codec>,
)
    requires
        call_ensures(FramedWrite::<IO, Codec>::new, (io, codec), framed),
    ensures
        framed@.io == io,
        framed@.codec == codec,
        framed@.write@ == Seq::<u8>::empty(),
        forall|room: usize| #[trigger]
            framed@.write.may_hold(room) ==> INITIAL_CAPACITY <= room,
{
}

/// [`FramedWrite::map_encoder`] changes the codec, as the closure does, and keeps everything
/// else.
pub proof fn law_framed_write_map_encoder<IO, Codec, CodecNew, F: FnOnce(Codec) -> CodecNew>(
    framed: FramedWrite<IO, Codec>,
    map: F,
    mapped: FramedWrite<IO, CodecNew>,
)
    requires
        call_ensures(FramedWrite::<IO, Codec>::map_encoder::<CodecNew, F>, (framed, map), mapped),
    ensures
        call_ensures(map, (framed@.codec,), mapped@.codec),
        mapped@.io == framed@.io,
        mapped@.write == framed@.write,
{
}

/// What a [`FramedWrite`] shows of itself is what it works with.
pub proof fn law_framed_write_shows_its_parts<IO, Codec>(
    framed: FramedWrite<IO, Codec>,
    io: &IO,
    inner: IO,
    codec: &Codec,
    write: &BytesMut,
)
    requires
        call_ensures(FramedWrite::<IO, Codec>::get_ref, (&framed,), io),
        call_ensures(FramedWrite::<IO, Codec>::into_inner, (framed,), inner),
        call_ensures(FramedWrite::<IO, Codec>::encoder, (&framed,), codec),
        call_ensures(FramedWrite::<IO, Codec>::write_buffer, (&framed,), write),
    ensures
        *io == framed@.io,
        inner == framed@.io,
        *codec == framed@.codec,
        *write == framed@.write.held(),
{
}

/// [`FramedWrite::get_mut`] lends out the stream and nothing else.
pub proof fn law_framed_write_get_mut<IO, Codec>(
    framed: &mut FramedWrite<IO, Codec>,
    io: &mut IO,
)
    requires
        call_ensures(FramedWrite::<IO, Codec>::get_mut, (framed,), io),
    ensures
        *old(io) == old(framed)@.io,
        final(framed)@ == (FramedWriteModel { io: *final(io), ..old(framed)@ }),
{
}

/// [`FramedWrite::encoder_mut`] lends out the codec and nothing else.
pub proof fn law_framed_write_encoder_mut<IO, Codec>(
    framed: &mut FramedWrite<IO, Codec>,
    codec: &mut Codec,
)
    requires
        call_ensures(FramedWrite::<IO, Codec>::encoder_mut, (framed,), codec),
    ensures
        *old(codec) == old(framed)@.codec,
        final(framed)@ == (FramedWriteModel { codec: *final(codec), ..old(framed)@ }),
{
}

/// [`FramedWrite::write_buffer_mut`] lends out the buffer for writing and nothing else.
pub proof fn law_framed_write_write_buffer_mut<IO, Codec>(
    framed: &mut FramedWrite<IO, Codec>,
    buffer: &mut BytesMut,
)
    requires
        call_ensures(FramedWrite::<IO, Codec>::write_buffer_mut, (framed,), buffer),
    ensures
        *old(buffer) == old(framed)@.write.held(),
        final(framed)@.write.held() == *final(buffer),
        final(framed)@ == (FramedWriteModel { write: final(framed)@.write, ..old(framed)@ }),
{
}

/// [`Decoder::decode_eof`] of every decoder has the outcomes that the end of the
/// input may have.
pub proof fn law_decode_eof<C: Decoder>(
    codec: &mut C,
    src: &mut BytesMut,
    result: Result<Decoded<C::Item>, C::Error>,
)
    requires
        call_ensures(<C as Decoder>::decode_eof, (codec, src), result),
    ensures
        ends(*old(codec), *old(src), *final(codec), *final(src), result),
{
}

/// [`WriteState::append`] appends as much of the data as there is room for, and
/// returns how much that is.
pub proof fn law_append(write: &mut WriteState, data: &[u8], room: usize, count: usize)
    requires
        call_ensures(WriteState::append, (write, data, room), count),
    ensures
        count == as_fits(data@.len(), room),
        final(write)@ == old(write)@ + data@.take(count as int),
        room_grows_to(old(write).held(), final(write).held(), old(write)@.len() + count),
{
}

} // verus!
