//! What holds of the steps that read, whatever the decoder and whatever comes of
//! the input they ask for.
use vstd::prelude::*;
use bytes::BytesMut;
use crate::buffer::{content, may_hold};
use crate::input_laws::frame_run;
use crate::output_laws::{made_of, same_memory};
use crate::read::{
    FillEvent, Lease, NextStep, PeekStep, ReadEvent, ReadModel, ReadStep, State, INITIAL_CAPACITY,
    RESERVE,
};
use crate::read::{ended_step, fresh, lends, next_does, peek_does, read_does, readv_does};
use crate::read_laws::NextTurn;
use crate::sync_codec::{converted, end_of, ends, stems_from_io, Decoded, Decoder};

verus! {

/// The buffer that a step works on: the one at hand or, after a read, the one that
/// comes back.
pub open spec fn buffer_at_hand(pre: ReadModel, event: FillEvent) -> BytesMut {
    match event {
        FillEvent::Start => pre.buffer,
        FillEvent::Filled(buffer, _) => buffer,
    }
}

/// The event is a start, or a read that brought something.
pub open spec fn starts_or_brings(event: FillEvent) -> bool {
    match event {
        FillEvent::Start => true,
        FillEvent::Filled(_, Ok(count)) => count > 0,
        FillEvent::Filled(_, Err(_)) => false,
    }
}

/// While frames are read, the decoder is shown what is at hand as soon as there is
/// something and it has asked for no more than that. A frame or an error of its is
/// returned. As long as it has neither, whatever it did to the buffer and to
/// itself, the stream goes on reading, and keeps in mind what the decoder has asked
/// for last.
pub proof fn law_framing_reads_on<C: Decoder>(
    pre: ReadModel,
    codec: C,
    event: FillEvent,
    post: ReadModel,
    codec_after: C,
    step: NextStep<C::Item, C::Error>,
)
    requires
        pre.state is Framing,
        starts_or_brings(event),
        next_does(pre, codec, event, post, codec_after, step),
    ensures
        ({
            let shown = buffer_at_hand(pre, event);
            let len = content(shown).len();
            if len > 0 && (pre.state->Framing_0 matches Some(size) ==> size <= len) {
                exists|decoded: Result<Decoded<C::Item>, C::Error>|
                    {
                        &&& #[trigger] C::decodes(codec, shown, codec_after, post.buffer, decoded)
                        &&& match decoded {
                            Ok(Decoded::Frame(item)) => {
                                &&& step == NextStep::<C::Item, C::Error>::Ready(Some(Ok(item)))
                                &&& post.state == State::Framing(None)
                            },
                            Ok(Decoded::Insufficient) => {
                                &&& step is Fill
                                &&& post.state == State::Framing(None)
                            },
                            Ok(Decoded::InsufficientAtLeast(size)) => {
                                &&& step is Fill
                                &&& post.state == State::Framing(Some(size))
                            },
                            Err(error) => {
                                &&& step == NextStep::<C::Item, C::Error>::Ready(Some(Err(error)))
                                &&& post.state == State::Errored
                            },
                        }
                    }
            } else {
                &&& step is Fill
                &&& post == (ReadModel { state: pre.state, buffer: shown })
                &&& codec_after == codec
            }
        }),
{
}

/// Between the decoder's answers the stream asks for room for [`RESERVE`] bytes or,
/// if the decoder lacks more than that by what it has asked for, for just those.
pub proof fn law_room_is_what_is_lacking<C: Decoder>(
    pre: ReadModel,
    codec: C,
    event: FillEvent,
    post: ReadModel,
    codec_after: C,
    room: usize,
)
    requires
        pre.state is Framing || pre.state is Paused,
        next_does(pre, codec, event, post, codec_after, NextStep::Fill(room)),
    ensures
        post.state is Framing || (post.state is Paused && pre.state is Paused),
        room == match post.state {
            State::Framing(Some(size)) => if size - post.bytes().len() > RESERVE {
                size - post.bytes().len()
            } else {
                RESERVE as int
            },
            _ => RESERVE as int,
        },
{
}

/// When the input has ended, the decoder is asked what it makes of that, once for
/// each call. Frames are returned one by one; once there is none, the end is. An
/// error is returned.
pub proof fn law_end_is_up_to_the_decoder<C: Decoder>(
    pre: ReadModel,
    codec: C,
    event: FillEvent,
    post: ReadModel,
    codec_after: C,
    step: NextStep<C::Item, C::Error>,
)
    requires
        match event {
            FillEvent::Start => pre.state is Pausing,
            FillEvent::Filled(_, result) => pre.state is Framing && (result matches Ok(count)
                && count == 0),
        },
        next_does(pre, codec, event, post, codec_after, step),
    ensures
        exists|ended: Result<Decoded<C::Item>, C::Error>|
            {
                &&& #[trigger] ends(
                    codec,
                    buffer_at_hand(pre, event),
                    codec_after,
                    post.buffer,
                    ended,
                )
                &&& match ended {
                    Ok(Decoded::Frame(item)) => {
                        &&& step == NextStep::<C::Item, C::Error>::Ready(Some(Ok(item)))
                        &&& post.state == State::Pausing
                    },
                    Ok(_) => {
                        &&& step == NextStep::<C::Item, C::Error>::Ready(None)
                        &&& post.state == State::Paused
                    },
                    Err(error) => {
                        &&& step == NextStep::<C::Item, C::Error>::Ready(Some(Err(error)))
                        &&& post.state == State::Errored
                    },
                }
            },
{
    let shown = buffer_at_hand(pre, event);
    let ended = choose|ended: Result<Decoded<C::Item>, C::Error>|
        {
            &&& #[trigger] ends(codec, shown, codec_after, post.buffer, ended)
            &&& (post.state, step) == ended_step(ended)
        };
    assert(ends(codec, shown, codec_after, post.buffer, ended));
}

/// Unless a decoder has its own way, the end of the input is one more look at what
/// is at hand: a frame or an error stands. With neither, nothing may be left over;
/// bytes that are become an error that stems from an I/O error.
pub proof fn law_end_leaves_nothing_over<C: Decoder>(
    pre: C,
    src: BytesMut,
    post: C,
    rest: BytesMut,
    result: Result<Decoded<C::Item>, C::Error>,
)
    requires
        ends(pre, src, post, rest, result),
        !C::decodes_eof(pre, src, post, rest, result),
    ensures
        exists|decoded: Result<Decoded<C::Item>, C::Error>|
            {
                &&& #[trigger] C::decodes(pre, src, post, rest, decoded)
                &&& match decoded {
                    Ok(Decoded::Frame(item)) => result == Ok::<Decoded<C::Item>, C::Error>(
                        Decoded::Frame(item),
                    ),
                    Err(error) => result == Err::<Decoded<C::Item>, C::Error>(error),
                    Ok(_) => if content(rest).len() == 0 {
                        result == Ok::<Decoded<C::Item>, C::Error>(Decoded::Insufficient)
                    } else {
                        result matches Err(error) && exists|cause: std::io::Error| #[trigger]
                            made_of(cause, error)
                    },
                }
            },
{
    let decoded = choose|decoded: Result<Decoded<C::Item>, C::Error>|
        {
            &&& #[trigger] C::decodes(pre, src, post, rest, decoded)
            &&& end_of(decoded, content(rest), result)
            &&& decoded is Ok && result is Err ==> stems_from_io(result->Err_0)
        };
    assert(C::decodes(pre, src, post, rest, decoded));
    if decoded is Ok && result is Err {
        let cause = choose|cause: std::io::Error| #[trigger]
            converted(cause, result->Err_0);
        assert(made_of(cause, result->Err_0));
    }
}

/// Once the end has been reported, a call reads again and asks no decoder before
/// that. A read that brings nothing is still the end; one that brings something is
/// taken as while frames are read.
pub proof fn law_paused_reads_again<C: Decoder>(
    pre: ReadModel,
    codec: C,
    event: FillEvent,
    post: ReadModel,
    codec_after: C,
    step: NextStep<C::Item, C::Error>,
)
    requires
        pre.state is Paused,
        next_does(pre, codec, event, post, codec_after, step),
    ensures
        event is Start ==> {
            &&& step == NextStep::<C::Item, C::Error>::Fill(RESERVE)
            &&& post == pre
            &&& codec_after == codec
        },
        event matches FillEvent::Filled(buffer, Ok(count)) ==> if count == 0 {
            &&& step == NextStep::<C::Item, C::Error>::Ready(None)
            &&& post == (ReadModel { state: State::Paused, buffer })
            &&& codec_after == codec
        } else {
            next_does(
                ReadModel { state: State::Framing(None), ..pre },
                codec,
                event,
                post,
                codec_after,
                step,
            )
        },
{
}

/// After an error the end is reported, with neither a read nor the decoder, and
/// what is buffered stays.
pub proof fn law_error_is_followed_by_end<C: Decoder>(
    pre: ReadModel,
    codec: C,
    post: ReadModel,
    codec_after: C,
    step: NextStep<C::Item, C::Error>,
)
    requires
        pre.state is Errored,
        next_does(pre, codec, FillEvent::Start, post, codec_after, step),
    ensures
        step == NextStep::<C::Item, C::Error>::Ready(None),
        post == (ReadModel { state: State::Paused, buffer: pre.buffer }),
        codec_after == codec,
{
}

/// The failure of a read is returned as an error of the decoder's type, and nothing
/// that the read brought or that was there before is lost.
pub proof fn law_failed_read_is_returned<C: Decoder>(
    pre: ReadModel,
    codec: C,
    buffer: BytesMut,
    cause: std::io::Error,
    post: ReadModel,
    codec_after: C,
    step: NextStep<C::Item, C::Error>,
)
    requires
        next_does(pre, codec, FillEvent::Filled(buffer, Err(cause)), post, codec_after, step),
    ensures
        step matches NextStep::Ready(Some(Err(error))) && made_of(cause, error),
        post == (ReadModel { state: State::Errored, buffer }),
        codec_after == codec,
{
}

proof fn lemma_none_means_end<C: Decoder>(
    pre: ReadModel,
    codec: C,
    turns: Seq<NextTurn<C>>,
    brought: Seq<Seq<u8>>,
)
    requires
        frame_run(pre, codec, turns, brought),
        pre.state is Framing || pre.state is Paused,
        turns.last().step == NextStep::<C::Item, C::Error>::Ready(None),
    ensures
        turns.last().event matches FillEvent::Filled(_, Ok(count)) && count == 0,
    decreases turns.len(),
{
    if turns[0].step is Fill {
        let next = turns.drop_first();
        assert(turns.last() == next.last());
        lemma_none_means_end(turns[0].left, turns[0].codec, next, brought.drop_first());
    }
}

proof fn lemma_last_read<C: Decoder>(
    pre: ReadModel,
    codec: C,
    turns: Seq<NextTurn<C>>,
    brought: Seq<Seq<u8>>,
)
    requires
        frame_run(pre, codec, turns, brought),
        turns.len() > 1,
        turns.last().event matches FillEvent::Filled(_, Ok(_)),
    ensures
        turns.last().event->Filled_1->Ok_0 == brought.last().len(),
    decreases turns.len(),
{
    if turns.len() > 2 {
        let next = turns.drop_first();
        assert(turns.last() == next.last());
        assert(brought.last() == brought.drop_first().last());
        lemma_last_read(turns[0].left, turns[0].codec, next, brought.drop_first());
    }
}

/// The end of the stream is returned only if it is there: by a call that finds the
/// stream reading frames or paused, only right after a read that brought nothing.
/// This holds of every decoder, also of one that takes bytes out while it waits for
/// more.
pub proof fn law_none_means_end<C: Decoder>(
    pre: ReadModel,
    codec: C,
    turns: Seq<NextTurn<C>>,
    brought: Seq<Seq<u8>>,
)
    requires
        frame_run(pre, codec, turns, brought),
        turns[0].event is Start,
        pre.state is Framing || pre.state is Paused,
        turns.last().step == NextStep::<C::Item, C::Error>::Ready(None),
    ensures
        brought.len() > 0,
        brought.last().len() == 0,
        turns.last().event matches FillEvent::Filled(_, Ok(count)) && count == 0,
{
    lemma_none_means_end(pre, codec, turns, brought);
    lemma_last_read(pre, codec, turns, brought);
}

/// A look at the data asks for a read only if there is none, and changes nothing by
/// itself. What a read brings is to be seen; one that brings nothing means the end,
/// and the failure of one is returned.
pub proof fn law_peek_waits_for_data(
    pre: ReadModel,
    event: FillEvent,
    post: ReadModel,
    step: PeekStep,
)
    requires
        peek_does(pre, event, post, step),
    ensures
        post.buffer == buffer_at_hand(pre, event),
        match event {
            FillEvent::Start => {
                &&& post.state == pre.state
                &&& pre.bytes().len() == 0 ==> step == PeekStep::Fill(RESERVE)
                &&& pre.bytes().len() > 0 ==> step == PeekStep::Done(Ok(()))
            },
            FillEvent::Filled(_, Ok(count)) => {
                &&& step == PeekStep::Done(Ok(()))
                &&& count == 0 ==> post.state == State::Paused
                &&& count > 0 ==> post.state == pre.state
            },
            FillEvent::Filled(_, Err(cause)) => {
                &&& step == PeekStep::Done(Err(cause))
                &&& post.state == State::Errored
            },
        },
{
}

/// How many of `len` bytes a caller with room for `total` gets.
pub open spec fn as_fits(len: nat, total: usize) -> int {
    if len <= total {
        len as int
    } else {
        total as int
    }
}

/// An unframed read changes nothing when it starts. The caller gets what is
/// buffered, as far as it fits. With nothing buffered, a caller with room for more
/// than [`INITIAL_CAPACITY`] bytes is to be served by the stream itself, another one
/// through the buffer, and one without any room not at all.
pub proof fn law_read_starts_with_what_is_there(
    pre: ReadModel,
    total: usize,
    post: ReadModel,
    step: ReadStep,
)
    requires
        read_does(pre, total, ReadEvent::Start, post, step),
    ensures
        post == pre,
        total == 0 ==> step == ReadStep::Done(Ok(0)),
        total > 0 && pre.bytes().len() > 0 ==> (step matches ReadStep::Copy(count) && count
            == as_fits(pre.bytes().len(), total)),
        total > 0 && pre.bytes().len() == 0 ==> {
            &&& total > INITIAL_CAPACITY ==> step == ReadStep::Direct
            &&& total <= INITIAL_CAPACITY ==> step == ReadStep::Fill(INITIAL_CAPACITY)
        },
{
}

/// Bytes that the caller has copied are dropped from the front of the buffer, with
/// their memory and no others, and their number is returned.
pub proof fn law_copied_bytes_are_dropped(
    pre: ReadModel,
    total: usize,
    post: ReadModel,
    step: ReadStep,
)
    requires
        read_does(pre, total, ReadEvent::Copied, post, step),
    ensures
        post.state == pre.state,
        step matches ReadStep::Done(Ok(count)) && {
            &&& count == as_fits(pre.bytes().len(), total)
            &&& post.bytes() == pre.bytes().skip(count as int)
            &&& forall|capacity: usize| #[trigger]
                may_hold(post.buffer, capacity) ==> exists|more: usize| #[trigger]
                    may_hold(pre.buffer, more) && more == capacity + count
        },
{
}

/// What came of a read of the stream decides how an unframed read goes on: a
/// failure is returned and leaves the stream errored; nothing means the end, which
/// the decoder will be asked about; something is the caller's. No byte is lost.
pub proof fn law_read_goes_by_its_input(
    pre: ReadModel,
    total: usize,
    event: ReadEvent,
    post: ReadModel,
    step: ReadStep,
)
    requires
        read_does(pre, total, event, post, step),
    ensures
        event matches ReadEvent::Filled(buffer, result) ==> {
            &&& post.buffer == buffer
            &&& match result {
                Err(cause) => {
                    &&& step == ReadStep::Done(Err(cause))
                    &&& post.state == State::Errored
                },
                Ok(count) => if count == 0 {
                    &&& step == ReadStep::Done(Ok(0))
                    &&& post.state == State::Pausing
                } else {
                    &&& step matches ReadStep::Copy(share) && share == as_fits(
                        content(buffer).len(),
                        total,
                    )
                    &&& post.state == pre.state
                },
            }
        },
        event matches ReadEvent::Direct(result) ==> {
            &&& post.buffer == pre.buffer
            &&& step == ReadStep::Done(result)
            &&& match result {
                Err(_) => post.state == State::Errored,
                Ok(count) => if count == 0 {
                    post.state == State::Pausing
                } else {
                    post.state == pre.state
                },
            }
        },
{
}

/// A read into several memory areas is a read into the first of them. Without one
/// nothing is read and nothing changes.
pub proof fn law_vectored_read_is_into_the_first(
    pre: ReadModel,
    slot: Option<usize>,
    event: ReadEvent,
    post: ReadModel,
    step: ReadStep,
)
    requires
        readv_does(pre, slot, event, post, step),
    ensures
        slot matches Some(total) ==> read_does(pre, total, event, post, step),
        slot is None ==> post == pre && step == ReadStep::Done(Ok(0)),
{
}

/// Lending the buffer out loses nothing: it goes with all that it holds, and the
/// place to read into lies right behind that, has the room asked for and ends where
/// the memory does. More memory is taken only where that at hand is not enough. So
/// a step that gets the buffer back goes on from the same state, with the same
/// bytes and what was read behind them.
pub proof fn law_lease_goes_with_the_bytes(
    pre: ReadModel,
    additional: usize,
    left: ReadModel,
    lease: Lease,
)
    requires
        lends(pre, additional, left, lease),
    ensures
        content(lease.buffer) == pre.bytes(),
        lease.begin == pre.bytes().len(),
        lease.end - lease.begin >= additional,
        lease.end <= isize::MAX,
        may_hold(lease.buffer, lease.end),
        forall|capacity: usize| #[trigger]
            may_hold(lease.buffer, capacity) ==> capacity == lease.end,
        forall|capacity: usize| #[trigger]
            may_hold(pre.buffer, capacity) && pre.bytes().len() + additional <= capacity
                ==> same_memory(pre.buffer, lease.buffer),
        exists|capacity: usize| #[trigger]
            may_hold(pre.buffer, capacity) && capacity <= lease.end,
        left.state == pre.state,
        left.bytes() == Seq::<u8>::empty(),
{
}

/// A new stream holds nothing, has at least the room it was made with, and waits
/// for frames: the first call for one reads, and the first unframed read or look
/// at the data finds nothing.
pub proof fn law_fresh_stream_reads_first<C: Decoder>(
    pre: ReadModel,
    capacity: usize,
    codec: C,
    post: ReadModel,
    codec_after: C,
    step: NextStep<C::Item, C::Error>,
)
    requires
        fresh(pre, capacity),
        next_does(pre, codec, FillEvent::Start, post, codec_after, step),
    ensures
        pre.state == State::Framing(None),
        pre.bytes() == Seq::<u8>::empty(),
        forall|room: usize| #[trigger] may_hold(pre.buffer, room) ==> capacity <= room,
        step == NextStep::<C::Item, C::Error>::Fill(RESERVE),
        post == pre,
        codec_after == codec,
{
}

} // verus!
