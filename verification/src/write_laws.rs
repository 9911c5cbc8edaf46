//! What holds of writing as a whole, over the steps that [`crate::write`] takes.
use vstd::prelude::*;
use bytes::BytesMut;
use crate::buffer::{content, may_hold, same_room};
use crate::read::INITIAL_CAPACITY;
use crate::sync_codec::Encoder;
use crate::write::{
    FlushEvent, FlushStep, Request, SendStep, ShutdownEvent, ShutdownStep, WriteEvent, WriteStep,
    BACKPRESSURE_BOUNDARY,
};
use crate::write::{flush_does, send_does, shutdown_does, write_does};

verus! {

/// One step of sending what is buffered, and the buffer it left.
pub struct FlushTurn {
    pub event: FlushEvent,
    pub buffer: BytesMut,
    pub step: FlushStep<std::io::Error>,
}

/// One step of an unframed write, and the buffer it left.
pub struct WriteTurn {
    pub event: WriteEvent,
    pub buffer: BytesMut,
    pub step: WriteStep,
}

/// One step of sending an item, and what it left.
pub struct SendTurn<C: Encoder<Item>, Item> {
    pub event: FlushEvent,
    pub buffer: BytesMut,
    pub codec: C,
    pub step: SendStep<Item, C::Error>,
}

/// One step of shutting down, and the buffer it left.
pub struct ShutdownTurn {
    pub event: ShutdownEvent,
    pub buffer: BytesMut,
    pub step: ShutdownStep<std::io::Error>,
}

/// `buffer` was written whole and came back as it was.
pub open spec fn wrote(buffer: BytesMut, event: FlushEvent) -> bool {
    event matches FlushEvent::Written(back, Ok(_)) && content(back) == content(buffer)
}

/// The stream was flushed.
pub open spec fn flushed(event: FlushEvent) -> bool {
    event matches FlushEvent::Flushed(Ok(_))
}

/// What was asked for was done.
pub open spec fn met(request: Request, event: FlushEvent) -> bool {
    match request {
        Request::WriteAll(buffer) => wrote(buffer, event),
        Request::Flush => flushed(event),
    }
}

/// What is sent when what was asked for is done.
pub open spec fn put(request: Request) -> Seq<u8> {
    match request {
        Request::WriteAll(buffer) => content(buffer),
        Request::Flush => Seq::empty(),
    }
}

/// What is sent after `first`, if that came first.
pub open spec fn after(first: Seq<u8>, wire: Seq<u8>) -> Seq<u8> {
    wire.skip(first.len() as int)
}

/// `turns` are steps of sending what is buffered, from any of them to the last,
/// with whatever is asked for going well, and `wire` is what was sent.
pub open spec fn flush_goes(pre: BytesMut, turns: Seq<FlushTurn>, wire: Seq<u8>) -> bool
    decreases turns.len(),
{
    &&& turns.len() > 0
    &&& flush_does(pre, turns[0].event, turns[0].buffer, turns[0].step)
    &&& match turns[0].step {
        FlushStep::Done(_) => turns.len() == 1 && wire.len() == 0,
        FlushStep::Io(request) => {
            &&& turns.len() > 1
            &&& met(request, turns[1].event)
            &&& put(request).is_prefix_of(wire)
            &&& flush_goes(turns[0].buffer, turns.drop_first(), after(put(request), wire))
        },
    }
}

/// `turns` are the steps of sending what is buffered, with all output going
/// well, and `wire` is what was sent.
pub open spec fn flush_run(pre: BytesMut, turns: Seq<FlushTurn>, wire: Seq<u8>) -> bool {
    &&& turns[0].event is Start
    &&& flush_goes(pre, turns, wire)
}

/// `turns` are steps of an unframed write of `data`, from any of them to the
/// last, with whatever is asked for going well, and `wire` is what was sent.
pub open spec fn write_goes(
    pre: BytesMut,
    data: Seq<u8>,
    turns: Seq<WriteTurn>,
    wire: Seq<u8>,
) -> bool
    decreases turns.len(),
{
    &&& turns.len() > 0
    &&& write_does(pre, data, turns[0].event, turns[0].buffer, turns[0].step)
    &&& match turns[0].step {
        WriteStep::Done(_) => turns.len() == 1 && wire.len() == 0,
        WriteStep::Direct => {
            &&& turns.len() > 1
            &&& turns[1].event matches WriteEvent::Direct(Ok(count)) && count == data.len()
            &&& data.is_prefix_of(wire)
            &&& write_goes(turns[0].buffer, data, turns.drop_first(), after(data, wire))
        },
        WriteStep::Io(request) => {
            &&& turns.len() > 1
            &&& turns[1].event matches WriteEvent::Flush(event) && met(request, event)
            &&& put(request).is_prefix_of(wire)
            &&& write_goes(turns[0].buffer, data, turns.drop_first(), after(put(request), wire))
        },
    }
}

/// `turns` are the steps of an unframed write of `data`, with all output going
/// well, and `wire` is what was sent.
pub open spec fn write_run(
    pre: BytesMut,
    data: Seq<u8>,
    turns: Seq<WriteTurn>,
    wire: Seq<u8>,
) -> bool {
    &&& turns[0].event matches WriteEvent::Flush(FlushEvent::Start)
    &&& write_goes(pre, data, turns, wire)
}

/// `turns` are steps of sending an item, from any of them to the last, with
/// whatever is asked for going well, and `wire` is what was sent. The item that a
/// step hands back is the one that the next step is taken with.
pub open spec fn send_goes<C: Encoder<Item>, Item>(
    pre: BytesMut,
    codec: C,
    item: Item,
    turns: Seq<SendTurn<C, Item>>,
    wire: Seq<u8>,
) -> bool
    decreases turns.len(),
{
    &&& turns.len() > 0
    &&& send_does(
        pre,
        codec,
        item,
        turns[0].event,
        turns[0].buffer,
        turns[0].codec,
        turns[0].step,
    )
    &&& match turns[0].step {
        SendStep::Done(_) => turns.len() == 1 && wire.len() == 0,
        SendStep::Io(request, kept) => {
            &&& turns.len() > 1
            &&& met(request, turns[1].event)
            &&& put(request).is_prefix_of(wire)
            &&& send_goes(
                turns[0].buffer,
                turns[0].codec,
                kept,
                turns.drop_first(),
                after(put(request), wire),
            )
        },
    }
}

/// `turns` are the steps of sending an item, with all output going well, and
/// `wire` is what was sent.
pub open spec fn send_run<C: Encoder<Item>, Item>(
    pre: BytesMut,
    codec: C,
    item: Item,
    turns: Seq<SendTurn<C, Item>>,
    wire: Seq<u8>,
) -> bool {
    &&& turns[0].event is Start
    &&& send_goes(pre, codec, item, turns, wire)
}

/// Sending what is buffered sends all of it and leaves nothing. If there was
/// something, the stream is flushed once all is written.
pub proof fn law_flush_sends_all(pre: BytesMut, turns: Seq<FlushTurn>, wire: Seq<u8>)
    requires
        flush_run(pre, turns, wire),
    ensures
        wire == content(pre),
        content(turns.last().buffer) == Seq::<u8>::empty(),
        turns.last().step matches FlushStep::Done(Ok(_)),
        content(pre).len() > 0 ==> turns.last().event is Flushed,
{
    reveal_with_fuel(flush_goes, 4);
    if content(pre).len() > 0 {
        let next = turns.drop_first();
        assert(next[0] == turns[1]);
        assert(next.drop_first()[0] == turns[2]);
        assert(wire.subrange(0, wire.len() as int) =~= wire);
    } else {
        assert(wire =~= content(pre));
    }
}

/// Where nothing is buffered, nothing is sent and the stream is not flushed.
pub proof fn law_empty_flush_is_silent(
    pre: BytesMut,
    event: FlushEvent,
    post: BytesMut,
    step: FlushStep<std::io::Error>,
)
    requires
        content(pre).len() == 0,
        event is Start,
        flush_does(pre, event, post, step),
    ensures
        post == pre,
        step == FlushStep::<std::io::Error>::Done(Ok(())),
{
}

/// Sending what is buffered neither takes nor gives up memory: if the buffer that
/// was handed out comes back, the buffer kept has the same memory as before,
/// whether writing went well or failed.
pub proof fn law_flush_keeps_memory(
    pre: BytesMut,
    mid: BytesMut,
    request: Request,
    result: Result<usize, std::io::Error>,
    post: BytesMut,
    step: FlushStep<std::io::Error>,
)
    requires
        flush_does(pre, FlushEvent::Start, mid, FlushStep::Io(request)),
        request matches Request::WriteAll(buffer) && flush_does(
            mid,
            FlushEvent::Written(buffer, result),
            post,
            step,
        ),
    ensures
        request == Request::WriteAll(pre),
        same_room(pre, post),
        result is Err ==> post == pre,
        result is Ok ==> content(post) == Seq::<u8>::empty(),
{
}

/// A failed write costs no byte: the buffer is kept as it comes back, and another
/// attempt hands out that one.
pub proof fn law_failed_flush_keeps_bytes(
    mid: BytesMut,
    back: BytesMut,
    cause: std::io::Error,
    post: BytesMut,
    step: FlushStep<std::io::Error>,
    again: BytesMut,
    retry: FlushStep<std::io::Error>,
)
    requires
        content(back).len() > 0,
        flush_does(mid, FlushEvent::Written(back, Err(cause)), post, step),
        flush_does(post, FlushEvent::Start, again, retry),
    ensures
        step == FlushStep::Done(Err(cause)),
        post == back,
        retry == FlushStep::<std::io::Error>::Io(Request::WriteAll(back)),
{
}

/// A small write is taken whole if the memory at hand has room for it, and then
/// takes no more memory.
pub proof fn law_small_write_is_taken_whole(
    pre: BytesMut,
    data: Seq<u8>,
    post: BytesMut,
    step: WriteStep,
)
    requires
        content(pre).len() < BACKPRESSURE_BOUNDARY,
        data.len() < INITIAL_CAPACITY,
        forall|capacity: usize| #[trigger]
            may_hold(pre, capacity) ==> content(pre).len() + data.len() <= capacity,
        write_does(pre, data, WriteEvent::Flush(FlushEvent::Start), post, step),
    ensures
        step matches WriteStep::Done(Ok(count)) && count == data.len(),
        content(post) == content(pre) + data,
        same_room(pre, post),
{
    assert(data.take(data.len() as int) =~= data);
}

/// An unframed write keeps the order of bytes: what is sent, then what stays
/// buffered, are what was buffered and then as much of the data as was taken.
/// A large write, or one on a full buffer, is sent whole.
pub proof fn law_write_keeps_order(
    pre: BytesMut,
    data: Seq<u8>,
    turns: Seq<WriteTurn>,
    wire: Seq<u8>,
)
    requires
        write_run(pre, data, turns, wire),
    ensures
        turns.last().step matches WriteStep::Done(Ok(count)) && count <= data.len() && wire
            + content(turns.last().buffer) == content(pre) + data.take(count as int) && (content(
            pre,
        ).len() >= BACKPRESSURE_BOUNDARY || data.len() >= INITIAL_CAPACITY ==> count == data.len()
            && wire == content(pre) + data),
{
    reveal_with_fuel(write_goes, 5);
    assert(data.take(data.len() as int) =~= data);
    assert(wire.subrange(0, wire.len() as int) =~= wire);
    let next = turns.drop_first();
    if turns.len() > 1 {
        assert(next[0] == turns[1]);
    }
    if turns[0].step is Io {
        let held = content(pre);
        assert(next.drop_first()[0] == turns[2]);
        assert(next.drop_first().drop_first()[0] == turns[3]);
        assert(after(Seq::<u8>::empty(), after(held, wire)) =~= after(held, wire));
        assert(after(held, wire).subrange(0, after(held, wire).len() as int) =~= after(held, wire));
        assert(wire =~= held + after(held, wire));
    }
    let count = turns.last().step->Done_0->Ok_0;
    assert(wire + content(turns.last().buffer) =~= content(pre) + data.take(count as int));
}

/// The caller's own bytes are written only when nothing is buffered any more.
pub proof fn law_direct_write_comes_last(
    pre: BytesMut,
    data: Seq<u8>,
    turns: Seq<WriteTurn>,
    wire: Seq<u8>,
    i: int,
)
    requires
        write_run(pre, data, turns, wire),
        0 <= i < turns.len(),
        turns[i].step is Direct,
    ensures
        content(turns[i].buffer) == Seq::<u8>::empty(),
{
    reveal_with_fuel(write_goes, 5);
    let next = turns.drop_first();
    if turns.len() > 1 {
        assert(next[0] == turns[1]);
    }
    if turns[0].step is Io {
        assert(next.drop_first()[0] == turns[2]);
        assert(next.drop_first().drop_first()[0] == turns[3]);
    }
}

/// What the encoder finds in the buffer: what was buffered or, if that was too
/// much and has been sent, nothing.
pub open spec fn found_by_encoder(pre: BytesMut) -> Seq<u8> {
    if content(pre).len() < BACKPRESSURE_BOUNDARY {
        content(pre)
    } else {
        Seq::empty()
    }
}

/// The encoder never finds more than [`BACKPRESSURE_BOUNDARY`] bytes, nor as
/// many, in the buffer: it is asked once, with what was buffered or, if that was
/// too much and has been sent, with nothing.
pub proof fn law_backpressure<C: Encoder<Item>, Item>(
    pre: BytesMut,
    codec: C,
    item: Item,
    turns: Seq<SendTurn<C, Item>>,
    wire: Seq<u8>,
)
    requires
        send_run(pre, codec, item, turns, wire),
    ensures
        found_by_encoder(pre).len() < BACKPRESSURE_BOUNDARY,
        turns.last().step matches SendStep::Done(result) && exists|dst: BytesMut| #[trigger]
            C::encodes(codec, item, dst, turns.last().codec, turns.last().buffer, result)
                && content(dst) == found_by_encoder(pre),
        wire + found_by_encoder(pre) == content(pre),
{
    reveal_with_fuel(send_goes, 4);
    if turns[0].step is Io {
        let next = turns.drop_first();
        assert(next[0] == turns[1]);
        assert(next.drop_first()[0] == turns[2]);
        assert(wire.subrange(0, wire.len() as int) =~= wire);
    }
    assert(wire + found_by_encoder(pre) =~= content(pre));
}

/// Where encoders of type `C` succeed, they have only appended to the buffer.
pub open spec fn only_appends<C: Encoder<Item>, Item>() -> bool {
    forall|
        pre: C,
        item: Item,
        dst: BytesMut,
        post: C,
        out: BytesMut,
        result: Result<(), C::Error>,
    | #[trigger]
        C::encodes(pre, item, dst, post, out, result) && result is Ok ==> content(dst).is_prefix_of(
            content(out),
        )
}

/// What the encoder appended when an item was sent.
pub open spec fn appended<C: Encoder<Item>, Item>(
    pre: BytesMut,
    turns: Seq<SendTurn<C, Item>>,
) -> Seq<u8> {
    content(turns.last().buffer).skip(found_by_encoder(pre).len() as int)
}

/// Sending an item keeps the order of bytes: what is sent, then what stays
/// buffered, are what was buffered and then what the encoder made of the item.
pub proof fn law_send_keeps_order<C: Encoder<Item>, Item>(
    pre: BytesMut,
    codec: C,
    item: Item,
    turns: Seq<SendTurn<C, Item>>,
    wire: Seq<u8>,
)
    requires
        only_appends::<C, Item>(),
        send_run(pre, codec, item, turns, wire),
        turns.last().step matches SendStep::Done(Ok(_)),
    ensures
        wire + content(turns.last().buffer) == content(pre) + appended(pre, turns),
        exists|dst: BytesMut| #[trigger]
            C::encodes(
                codec,
                item,
                dst,
                turns.last().codec,
                turns.last().buffer,
                turns.last().step->Done_0,
            ) && content(dst) == found_by_encoder(pre) && content(turns.last().buffer) == content(
                dst,
            ) + appended(pre, turns),
{
    law_backpressure(pre, codec, item, turns, wire);
    let found = found_by_encoder(pre);
    let out = content(turns.last().buffer);
    assert(found.is_prefix_of(out));
    assert(found + appended(pre, turns) =~= out);
    assert(wire + out =~= (wire + found) + appended(pre, turns));
}

/// If sending what is buffered fails, the item is not encoded.
pub proof fn law_failed_send_encodes_nothing<C: Encoder<Item>, Item>(
    pre: BytesMut,
    codec: C,
    item: Item,
    event: FlushEvent,
    post: BytesMut,
    codec_after: C,
    step: SendStep<Item, C::Error>,
)
    requires
        event matches FlushEvent::Written(_, Err(_)) || event matches FlushEvent::Flushed(Err(_)),
        send_does(pre, codec, item, event, post, codec_after, step),
    ensures
        step matches SendStep::Done(Err(_)),
        codec_after == codec,
        post == match event {
            FlushEvent::Written(back, _) => back,
            _ => pre,
        },
{
}

/// `turns` are steps of shutting down, from any of them to the one that asks to
/// shut the stream down or to the last, with whatever is asked for going well, and
/// `wire` is what was sent until then.
pub open spec fn shutdown_goes(pre: BytesMut, turns: Seq<ShutdownTurn>, wire: Seq<u8>) -> bool
    decreases turns.len(),
{
    &&& turns.len() > 0
    &&& shutdown_does(pre, turns[0].event, turns[0].buffer, turns[0].step)
    &&& match turns[0].step {
        ShutdownStep::Io(request) => {
            &&& turns.len() > 1
            &&& turns[1].event matches ShutdownEvent::Flush(event) && met(request, event)
            &&& put(request).is_prefix_of(wire)
            &&& shutdown_goes(turns[0].buffer, turns.drop_first(), after(put(request), wire))
        },
        _ => turns.len() == 1 && wire.len() == 0,
    }
}

/// `turns` are the steps of shutting down, with all output going well, and
/// `wire` is what was sent before the stream was shut down.
pub open spec fn shutdown_run(pre: BytesMut, turns: Seq<ShutdownTurn>, wire: Seq<u8>) -> bool {
    &&& turns[0].event matches ShutdownEvent::Flush(FlushEvent::Start)
    &&& shutdown_goes(pre, turns, wire)
}

/// The stream is shut down once all that was buffered has been sent and, if that
/// was something, the stream flushed.
pub proof fn law_shutdown_sends_all_first(pre: BytesMut, turns: Seq<ShutdownTurn>, wire: Seq<u8>)
    requires
        shutdown_run(pre, turns, wire),
    ensures
        wire == content(pre),
        content(turns.last().buffer) == Seq::<u8>::empty(),
        turns.last().step == ShutdownStep::<std::io::Error>::Shutdown,
        content(pre).len() > 0 ==> (turns.last().event matches ShutdownEvent::Flush(event)
            && event is Flushed),
{
    reveal_with_fuel(shutdown_goes, 4);
    if content(pre).len() > 0 {
        let next = turns.drop_first();
        assert(next[0] == turns[1]);
        assert(next.drop_first()[0] == turns[2]);
        assert(wire.subrange(0, wire.len() as int) =~= wire);
    } else {
        assert(wire =~= content(pre));
    }
}

/// If sending what is buffered fails, the stream is not shut down.
pub proof fn law_failed_flush_stops_shutdown(
    pre: BytesMut,
    event: FlushEvent,
    post: BytesMut,
    step: ShutdownStep<std::io::Error>,
)
    requires
        event matches FlushEvent::Written(_, Err(_)) || event matches FlushEvent::Flushed(Err(_)),
        shutdown_does(pre, ShutdownEvent::Flush(event), post, step),
    ensures
        step matches ShutdownStep::Done(Err(_)),
{
}

/// An operation on the writing half, with its steps.
pub enum Output<C: Encoder<Item>, Item> {
    Write(Seq<u8>, Seq<WriteTurn>),
    Send(Item, Seq<SendTurn<C, Item>>),
    Flush(Seq<FlushTurn>),
}

/// The operation is taken from `pre`, with all output going well, and `wire` is
/// what was sent.
pub open spec fn output_run<C: Encoder<Item>, Item>(
    pre: BytesMut,
    codec: C,
    output: Output<C, Item>,
    wire: Seq<u8>,
) -> bool {
    match output {
        Output::Write(data, turns) => write_run(pre, data, turns, wire),
        Output::Send(item, turns) => send_run(pre, codec, item, turns, wire),
        Output::Flush(turns) => flush_run(pre, turns, wire),
    }
}

/// The operation returned success.
pub open spec fn succeeds<C: Encoder<Item>, Item>(output: Output<C, Item>) -> bool {
    match output {
        Output::Write(_, turns) => turns.last().step matches WriteStep::Done(Ok(_)),
        Output::Send(_, turns) => turns.last().step matches SendStep::Done(Ok(_)),
        Output::Flush(turns) => turns.last().step matches FlushStep::Done(Ok(_)),
    }
}

/// The buffer that the operation left.
pub open spec fn buffer_after<C: Encoder<Item>, Item>(output: Output<C, Item>) -> BytesMut {
    match output {
        Output::Write(_, turns) => turns.last().buffer,
        Output::Send(_, turns) => turns.last().buffer,
        Output::Flush(turns) => turns.last().buffer,
    }
}

/// The encoder as the operation left it.
pub open spec fn codec_after<C: Encoder<Item>, Item>(codec: C, output: Output<C, Item>) -> C {
    match output {
        Output::Send(_, turns) => turns.last().codec,
        _ => codec,
    }
}

/// The bytes that the operation took on: what it took of the caller's bytes, or
/// what the encoder appended.
pub open spec fn taken_on<C: Encoder<Item>, Item>(
    pre: BytesMut,
    output: Output<C, Item>,
) -> Seq<u8> {
    match output {
        Output::Write(data, turns) => data.take(turns.last().step->Done_0->Ok_0 as int),
        Output::Send(_, turns) => appended(pre, turns),
        Output::Flush(_) => Seq::empty(),
    }
}

/// The operations are taken one after the other and succeed, and `wires` are what
/// each sent.
pub open spec fn outputs_run<C: Encoder<Item>, Item>(
    pre: BytesMut,
    codec: C,
    outputs: Seq<Output<C, Item>>,
    wires: Seq<Seq<u8>>,
) -> bool
    decreases outputs.len(),
{
    &&& outputs.len() == wires.len()
    &&& outputs.len() > 0 ==> {
        &&& output_run(pre, codec, outputs[0], wires[0])
        &&& succeeds(outputs[0])
        &&& outputs_run(
            buffer_after(outputs[0]),
            codec_after(codec, outputs[0]),
            outputs.drop_first(),
            wires.drop_first(),
        )
    }
}

/// The buffer that the operations left.
pub open spec fn buffer_at_last<C: Encoder<Item>, Item>(
    pre: BytesMut,
    outputs: Seq<Output<C, Item>>,
) -> BytesMut {
    if outputs.len() == 0 {
        pre
    } else {
        buffer_after(outputs.last())
    }
}

/// All the bytes that the operations took on.
pub open spec fn all_taken_on<C: Encoder<Item>, Item>(
    pre: BytesMut,
    outputs: Seq<Output<C, Item>>,
) -> Seq<u8>
    decreases outputs.len(),
{
    if outputs.len() == 0 {
        Seq::empty()
    } else {
        taken_on(pre, outputs[0]) + all_taken_on(buffer_after(outputs[0]), outputs.drop_first())
    }
}

/// Framed and unframed writes share one stream: whatever operations follow each
/// other and succeed, all that was sent, then what stays buffered, are what was
/// buffered and then all that was taken on, in that order, none left out and none
/// twice.
pub proof fn law_outputs_keep_order<C: Encoder<Item>, Item>(
    pre: BytesMut,
    codec: C,
    outputs: Seq<Output<C, Item>>,
    wires: Seq<Seq<u8>>,
)
    requires
        only_appends::<C, Item>(),
        outputs_run(pre, codec, outputs, wires),
    ensures
        wires.flatten() + content(buffer_at_last(pre, outputs)) == content(pre) + all_taken_on(
            pre,
            outputs,
        ),
    decreases outputs.len(),
{
    let all = content(pre) + all_taken_on(pre, outputs);
    if outputs.len() == 0 {
        assert(wires.flatten() + content(pre) =~= all);
    } else {
        let output = outputs[0];
        let later = outputs.drop_first();
        let buffer = buffer_after(output);
        let bytes = content(buffer);
        let added = taken_on(pre, output);
        match output {
            Output::Write(data, turns) => law_write_keeps_order(pre, data, turns, wires[0]),
            Output::Send(item, turns) => law_send_keeps_order(pre, codec, item, turns, wires[0]),
            Output::Flush(turns) => {
                law_flush_sends_all(pre, turns, wires[0]);
                assert(wires[0] + bytes =~= content(pre) + added);
            },
        }
        assert(wires[0] + bytes == content(pre) + added);
        law_outputs_keep_order(buffer, codec_after(codec, output), later, wires.drop_first());
        let sent = wires.drop_first().flatten();
        let last = content(buffer_at_last(pre, outputs));
        let rest = all_taken_on(buffer, later);
        assert(buffer_at_last(buffer, later) == buffer_at_last(pre, outputs));
        assert(wires.flatten() + last =~= wires[0] + (sent + last));
        assert(wires[0] + (bytes + rest) =~= (wires[0] + bytes) + rest);
        assert((content(pre) + added) + rest =~= all);
    }
}

} // verus!
