//! What holds of the steps that write, whatever comes of the output they ask for,
//! and of sinks with errors of their own.
use vstd::prelude::*;
use bytes::BytesMut;
use crate::buffer::{content, may_hold};
use crate::read::{INITIAL_CAPACITY, RESERVE};
use crate::sync_codec::Encoder;
use crate::write::{
    close_does, flush_does, flush_sink_does, send_does, shutdown_does, write_does, writev_does,
};
use crate::write::{
    FlushEvent, FlushStep, Request, SendStep, ShutdownEvent, ShutdownStep, WriteEvent, WriteStep,
    BACKPRESSURE_BOUNDARY,
};
use crate::write_laws::{after, met, put};

verus! {

/// `error` is what its type may make of the I/O error `cause`.
pub open spec fn made_of<E: From<std::io::Error>>(cause: std::io::Error, error: E) -> bool {
    call_ensures(<E as From<std::io::Error>>::from, (cause,), error)
}

/// The two buffers have the same memory, as far as [`BytesMut::capacity`] tells.
pub open spec fn same_memory(one: BytesMut, other: BytesMut) -> bool {
    forall|capacity: usize|
        #![trigger may_hold(one, capacity)]
        #![trigger may_hold(other, capacity)]
        may_hold(one, capacity) <==> may_hold(other, capacity)
}

/// A new buffer has room for 8 KiB. From as much on, what is buffered is sent
/// before more is added, and a write bypasses the buffer; a read bypasses it above
/// that. Before other reads there is room for 4 KiB at least.
pub proof fn law_sizes()
    ensures
        INITIAL_CAPACITY == 8 * 1024,
        BACKPRESSURE_BOUNDARY == INITIAL_CAPACITY,
        RESERVE == 4 * 1024,
{
}

/// Sending what is buffered starts by handing all of it out to be written. Where
/// there is nothing, it is over at once.
pub proof fn law_flush_hands_out_all(
    pre: BytesMut,
    post: BytesMut,
    step: FlushStep<std::io::Error>,
)
    requires
        flush_does(pre, FlushEvent::Start, post, step),
    ensures
        step == FlushStep::<std::io::Error>::Done(Ok(())) <==> content(pre).len() == 0,
        content(pre).len() == 0 ==> post == pre,
        content(pre).len() > 0 ==> {
            &&& step == FlushStep::<std::io::Error>::Io(Request::WriteAll(pre))
            &&& content(post) == Seq::<u8>::empty()
        },
{
}

/// Sending what is buffered is over with the first output that fails, and returns
/// that failure; else it is over once the stream has been flushed. The buffer that
/// comes back is kept: emptied if it was written, in its memory, and as it is if
/// not. Flushing the stream does not touch it.
pub proof fn law_flush_goes_by_its_output(
    pre: BytesMut,
    event: FlushEvent,
    post: BytesMut,
    step: FlushStep<std::io::Error>,
)
    requires
        flush_does(pre, event, post, step),
    ensures
        event matches FlushEvent::Written(back, result) ==> match result {
            Ok(_) => {
                &&& step == FlushStep::<std::io::Error>::Io(Request::Flush)
                &&& content(post) == Seq::<u8>::empty()
                &&& same_memory(back, post)
            },
            Err(cause) => {
                &&& step == FlushStep::Done(Err(cause))
                &&& post == back
            },
        },
        event matches FlushEvent::Flushed(result) ==> {
            &&& step == FlushStep::Done(result)
            &&& post == pre
        },
{
}

/// A sink sends what is buffered as the stream does: it leaves the same buffer and
/// asks for the same output. Only a failure is turned into an error of its own.
pub proof fn law_sink_flushes_as_stream<E: From<std::io::Error>>(
    pre: BytesMut,
    event: FlushEvent,
    post: BytesMut,
    step: FlushStep<E>,
)
    requires
        flush_sink_does(pre, event, post, step),
    ensures
        exists|plain: FlushStep<std::io::Error>|
            {
                &&& #[trigger] flush_does(pre, event, post, plain)
                &&& match (plain, step) {
                    (FlushStep::Io(asked), FlushStep::Io(request)) => request == asked,
                    (FlushStep::Done(Ok(_)), FlushStep::Done(Ok(_))) => true,
                    (FlushStep::Done(Err(cause)), FlushStep::Done(Err(error))) => made_of(
                        cause,
                        error,
                    ),
                    _ => false,
                }
            },
{
}

/// One step of sending what is buffered in a sink, and the buffer it left.
pub struct SinkTurn<E> {
    pub event: FlushEvent,
    pub buffer: BytesMut,
    pub step: FlushStep<E>,
}

/// `turns` are steps of sending what is buffered in a sink, from any of them to
/// the last, with whatever is asked for going well, and `wire` is what was sent.
pub open spec fn sink_goes<E: From<std::io::Error>>(
    pre: BytesMut,
    turns: Seq<SinkTurn<E>>,
    wire: Seq<u8>,
) -> bool
    decreases turns.len(),
{
    &&& turns.len() > 0
    &&& flush_sink_does(pre, turns[0].event, turns[0].buffer, turns[0].step)
    &&& match turns[0].step {
        FlushStep::Done(_) => turns.len() == 1 && wire.len() == 0,
        FlushStep::Io(request) => {
            &&& turns.len() > 1
            &&& met(request, turns[1].event)
            &&& put(request).is_prefix_of(wire)
            &&& sink_goes(turns[0].buffer, turns.drop_first(), after(put(request), wire))
        },
    }
}

/// Flushing a sink, with all output going well, sends all that was buffered,
/// leaves nothing and succeeds. If there was something, the stream is flushed
/// once all is written.
pub proof fn law_sink_flush_sends_all<E: From<std::io::Error>>(
    pre: BytesMut,
    turns: Seq<SinkTurn<E>>,
    wire: Seq<u8>,
)
    requires
        turns[0].event is Start,
        sink_goes(pre, turns, wire),
    ensures
        wire == content(pre),
        content(turns.last().buffer) == Seq::<u8>::empty(),
        turns.last().step == FlushStep::<E>::Done(Ok(())),
        content(pre).len() > 0 ==> turns.last().event is Flushed,
{
    reveal_with_fuel(sink_goes, 4);
    if content(pre).len() > 0 {
        let next = turns.drop_first();
        assert(next[0] == turns[1]);
        assert(next.drop_first()[0] == turns[2]);
        assert(wire.subrange(0, wire.len() as int) =~= wire);
    } else {
        assert(wire =~= content(pre));
    }
}

/// Shutting down first sends what is buffered, as [`crate::write::WriteState::flush`]
/// does. The stream is to be shut down once that is done, and not if it fails.
pub proof fn law_shutdown_flushes_first(
    pre: BytesMut,
    event: FlushEvent,
    post: BytesMut,
    step: ShutdownStep<std::io::Error>,
)
    requires
        shutdown_does(pre, ShutdownEvent::Flush(event), post, step),
    ensures
        exists|plain: FlushStep<std::io::Error>|
            {
                &&& #[trigger] flush_does(pre, event, post, plain)
                &&& match plain {
                    FlushStep::Io(request) => step == ShutdownStep::<std::io::Error>::Io(request),
                    FlushStep::Done(Ok(_)) => step == ShutdownStep::<std::io::Error>::Shutdown,
                    FlushStep::Done(Err(cause)) => step == ShutdownStep::Done(Err(cause)),
                }
            },
{
    let plain = match (event, step) {
        (FlushEvent::Flushed(result), _) => FlushStep::Done(result),
        (_, ShutdownStep::Io(request)) => FlushStep::Io(request),
        (_, ShutdownStep::Shutdown) => FlushStep::Done(Ok(())),
        (_, ShutdownStep::Done(result)) => FlushStep::Done(result),
    };
    assert(flush_does(pre, event, post, plain));
}

/// What came of shutting the stream down is what is returned.
pub proof fn law_shutdown_returns_result(
    pre: BytesMut,
    result: Result<(), std::io::Error>,
    post: BytesMut,
    step: ShutdownStep<std::io::Error>,
)
    requires
        shutdown_does(pre, ShutdownEvent::Shutdown(result), post, step),
    ensures
        step == ShutdownStep::Done(result),
        post == pre,
{
}

/// A sink is closed as the stream is shut down: it leaves the same buffer and asks
/// for the same output, in the same place. Only a failure is turned into an error
/// of its own.
pub proof fn law_sink_closes_as_stream<E: From<std::io::Error>>(
    pre: BytesMut,
    event: ShutdownEvent,
    post: BytesMut,
    step: ShutdownStep<E>,
)
    requires
        close_does(pre, event, post, step),
    ensures
        exists|plain: ShutdownStep<std::io::Error>|
            {
                &&& #[trigger] shutdown_does(pre, event, post, plain)
                &&& match (plain, step) {
                    (ShutdownStep::Io(asked), ShutdownStep::Io(request)) => request == asked,
                    (ShutdownStep::Shutdown, ShutdownStep::Shutdown) => true,
                    (ShutdownStep::Done(Ok(_)), ShutdownStep::Done(Ok(_))) => true,
                    (ShutdownStep::Done(Err(cause)), ShutdownStep::Done(Err(error))) => made_of(
                        cause,
                        error,
                    ),
                    _ => false,
                }
            },
{
}

/// One step of closing a sink, and the buffer it left.
pub struct CloseTurn<E> {
    pub event: ShutdownEvent,
    pub buffer: BytesMut,
    pub step: ShutdownStep<E>,
}

/// `turns` are steps of closing a sink, from any of them to the one that asks to
/// shut the stream down or to the last, with whatever is asked for going well, and
/// `wire` is what was sent until then.
pub open spec fn close_goes<E: From<std::io::Error>>(
    pre: BytesMut,
    turns: Seq<CloseTurn<E>>,
    wire: Seq<u8>,
) -> bool
    decreases turns.len(),
{
    &&& turns.len() > 0
    &&& close_does(pre, turns[0].event, turns[0].buffer, turns[0].step)
    &&& match turns[0].step {
        ShutdownStep::Io(request) => {
            &&& turns.len() > 1
            &&& turns[1].event matches ShutdownEvent::Flush(event) && met(request, event)
            &&& put(request).is_prefix_of(wire)
            &&& close_goes(turns[0].buffer, turns.drop_first(), after(put(request), wire))
        },
        _ => turns.len() == 1 && wire.len() == 0,
    }
}

/// Closing a sink, with all output going well, asks to shut the stream down, and
/// does so once all that was buffered has been sent and, if that was something,
/// the stream flushed. If the stream then is shut down, closing has succeeded.
pub proof fn law_close_sends_all_first<E: From<std::io::Error>>(
    pre: BytesMut,
    turns: Seq<CloseTurn<E>>,
    wire: Seq<u8>,
    post: BytesMut,
    step: ShutdownStep<E>,
)
    requires
        turns[0].event matches ShutdownEvent::Flush(FlushEvent::Start),
        close_goes(pre, turns, wire),
        close_does(turns.last().buffer, ShutdownEvent::Shutdown(Ok(())), post, step),
    ensures
        wire == content(pre),
        content(turns.last().buffer) == Seq::<u8>::empty(),
        turns.last().step == ShutdownStep::<E>::Shutdown,
        content(pre).len() > 0 ==> (turns.last().event matches ShutdownEvent::Flush(event)
            && event is Flushed),
        step == ShutdownStep::<E>::Done(Ok(())),
        post == turns.last().buffer,
{
    reveal_with_fuel(close_goes, 4);
    if content(pre).len() > 0 {
        let next = turns.drop_first();
        assert(next[0] == turns[1]);
        assert(next.drop_first()[0] == turns[2]);
        assert(wire.subrange(0, wire.len() as int) =~= wire);
    } else {
        assert(wire =~= content(pre));
    }
}

/// Sending an item encodes it at once, behind what is buffered, if that is less
/// than [`BACKPRESSURE_BOUNDARY`] bytes.
pub proof fn law_send_encodes_at_once<C: Encoder<Item>, Item>(
    pre: BytesMut,
    codec: C,
    item: Item,
    post: BytesMut,
    codec_after: C,
    step: SendStep<Item, C::Error>,
)
    requires
        content(pre).len() < BACKPRESSURE_BOUNDARY,
        send_does(pre, codec, item, FlushEvent::Start, post, codec_after, step),
    ensures
        step matches SendStep::Done(result) && C::encodes(
            codec,
            item,
            pre,
            codec_after,
            post,
            result,
        ),
{
}

/// If more than that is buffered, or as much, all of it is sent first, as
/// [`crate::write::WriteState::flush`] does. The item is handed back unchanged until
/// that is done, and then encoded into the buffer that is left; if it fails, the
/// encoder is not asked.
pub proof fn law_send_flushes_first<C: Encoder<Item>, Item>(
    pre: BytesMut,
    codec: C,
    item: Item,
    event: FlushEvent,
    post: BytesMut,
    codec_after: C,
    step: SendStep<Item, C::Error>,
)
    requires
        event is Start ==> content(pre).len() >= BACKPRESSURE_BOUNDARY,
        send_does(pre, codec, item, event, post, codec_after, step),
    ensures
        event is Start ==> step == SendStep::<Item, C::Error>::Io(Request::WriteAll(pre), item),
        exists|mid: BytesMut, plain: FlushStep<std::io::Error>|
            {
                &&& #[trigger] flush_does(pre, event, mid, plain)
                &&& match plain {
                    FlushStep::Io(request) => {
                        &&& step == SendStep::<Item, C::Error>::Io(request, item)
                        &&& post == mid
                        &&& codec_after == codec
                    },
                    FlushStep::Done(Err(cause)) => {
                        &&& step matches SendStep::Done(Err(error)) && made_of(cause, error)
                        &&& post == mid
                        &&& codec_after == codec
                    },
                    FlushStep::Done(Ok(_)) => step matches SendStep::Done(result) && C::encodes(
                        codec,
                        item,
                        mid,
                        codec_after,
                        post,
                        result,
                    ),
                }
            },
{
    match event {
        FlushEvent::Start => {
            assert(flush_does(pre, event, post, FlushStep::Io(Request::WriteAll(pre))));
        },
        FlushEvent::Written(_, Ok(_)) => {
            assert(flush_does(pre, event, post, FlushStep::Io(Request::Flush)));
        },
        FlushEvent::Written(_, Err(cause)) => {
            assert(flush_does(pre, event, post, FlushStep::Done(Err(cause))));
        },
        FlushEvent::Flushed(result) => {
            assert(flush_does(pre, event, pre, FlushStep::Done(result)));
        },
    }
}

/// A small write on a buffer that is not full is buffered, and nothing is sent. It
/// is taken whole, or else up to where the memory at hand is full; no more memory
/// is taken.
pub proof fn law_small_write_fills_memory(
    pre: BytesMut,
    data: Seq<u8>,
    post: BytesMut,
    step: WriteStep,
)
    requires
        content(pre).len() < BACKPRESSURE_BOUNDARY,
        data.len() < INITIAL_CAPACITY,
        write_does(pre, data, WriteEvent::Flush(FlushEvent::Start), post, step),
    ensures
        same_memory(pre, post),
        step matches WriteStep::Done(Ok(count)) && {
            &&& count <= data.len()
            &&& content(post) == content(pre) + data.take(count as int)
            &&& exists|capacity: usize| #[trigger]
                may_hold(pre, capacity) && content(post).len() <= capacity && (count < data.len()
                    ==> content(post).len() == capacity)
        },
{
}

/// A large write, or one on a full buffer, first sends what is buffered, as
/// [`crate::write::WriteState::flush`] does. The caller's own bytes are to be written
/// once that is done, and not if it fails.
pub proof fn law_large_write_flushes_first(
    pre: BytesMut,
    data: Seq<u8>,
    event: FlushEvent,
    post: BytesMut,
    step: WriteStep,
)
    requires
        event is Start ==> content(pre).len() >= BACKPRESSURE_BOUNDARY || data.len()
            >= INITIAL_CAPACITY,
        write_does(pre, data, WriteEvent::Flush(event), post, step),
    ensures
        event is Start && content(pre).len() > 0 ==> step == WriteStep::Io(
            Request::WriteAll(pre),
        ),
        exists|plain: FlushStep<std::io::Error>|
            {
                &&& #[trigger] flush_does(pre, event, post, plain)
                &&& match plain {
                    FlushStep::Io(request) => step == WriteStep::Io(request),
                    FlushStep::Done(Ok(_)) => step == WriteStep::Direct,
                    FlushStep::Done(Err(cause)) => step == WriteStep::Done(Err(cause)),
                }
            },
{
    let plain = match (event, step) {
        (FlushEvent::Flushed(result), _) => FlushStep::Done(result),
        (_, WriteStep::Io(request)) => FlushStep::Io(request),
        (_, WriteStep::Direct) => FlushStep::Done(Ok(())),
        (_, WriteStep::Done(result)) => FlushStep::Done(Err(result->Err_0)),
    };
    assert(flush_does(pre, event, post, plain));
}

/// What came of writing the caller's own bytes is what is returned.
pub proof fn law_direct_write_returns_result(
    pre: BytesMut,
    data: Seq<u8>,
    result: Result<usize, std::io::Error>,
    post: BytesMut,
    step: WriteStep,
)
    requires
        write_does(pre, data, WriteEvent::Direct(result), post, step),
    ensures
        step == WriteStep::Done(result),
        post == pre,
{
}

/// A write from several memory areas is a write from the first of them. Without
/// one nothing is written and nothing changes.
pub proof fn law_vectored_write_is_of_the_first(
    pre: BytesMut,
    slot: Option<Seq<u8>>,
    event: WriteEvent,
    post: BytesMut,
    step: WriteStep,
)
    requires
        writev_does(pre, slot, event, post, step),
    ensures
        slot matches Some(data) ==> write_does(pre, data, event, post, step),
        slot is None ==> post == pre && step == WriteStep::Done(Ok(0)),
{
}

} // verus!
