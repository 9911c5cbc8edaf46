//! What holds of reading as a whole, over the steps that [`crate::read`] takes.
use vstd::prelude::*;
use bytes::BytesMut;
use crate::buffer::content;
use crate::read::{
    FillEvent, NextStep, PeekStep, ReadEvent, ReadModel, ReadStep, State, RESERVE,
};
use crate::read::{fill_size, next_does, peek_does, read_does, reading};
use crate::sync_codec::{Decoded, Decoder};
use crate::sync_codec::ends;

verus! {

/// A way to split frames off a byte string: the frame at its front, and how
/// long that frame is, if there is a whole one.
pub type Parse<T> = spec_fn(Seq<u8>) -> Option<(T, nat)>;

/// Frames are not empty, and more bytes do not change a whole frame.
pub open spec fn splits_frames<T>(parse: Parse<T>) -> bool {
    &&& parse(Seq::empty()) is None
    &&& forall|bytes: Seq<u8>, more: Seq<u8>|
        #![trigger parse(bytes + more)]
        parse(bytes) matches Some((_, len)) ==> {
            &&& 0 < len <= bytes.len()
            &&& parse(bytes + more) == parse(bytes)
        }
}

/// `hint` bytes at least are needed for a whole frame with `bytes` at its front.
pub open spec fn hint_is_true<T>(parse: Parse<T>, bytes: Seq<u8>, hint: Option<usize>) -> bool {
    hint matches Some(size) ==> forall|more: Seq<u8>|
        bytes.len() + more.len() < size ==> #[trigger] parse(bytes + more) is None
}

/// The outcome of decoding `src` that `parse` calls for: the frame at its front,
/// or that there is no whole one yet. Where there is none, `src` may also be
/// refused, with whatever is left of it.
pub open spec fn decodes_as<T, E>(
    parse: Parse<T>,
    src: Seq<u8>,
    rest: Seq<u8>,
    result: Result<Decoded<T>, E>,
) -> bool {
    match parse(src) {
        Some((item, len)) => {
            &&& result == Ok::<Decoded<T>, E>(Decoded::Frame(item))
            &&& rest == src.skip(len as int)
        },
        None => match result {
            Ok(Decoded::Frame(_)) => false,
            Ok(Decoded::Insufficient) => rest == src,
            Ok(Decoded::InsufficientAtLeast(size)) => {
                &&& rest == src
                &&& hint_is_true(parse, src, Some(size))
            },
            Err(_) => true,
        },
    }
}

/// Decoders of type `C` split frames as `parse` does, whatever they decoded
/// before.
pub open spec fn decodes_by<C: Decoder>(parse: Parse<C::Item>) -> bool {
    &&& splits_frames(parse)
    &&& forall|
        pre: C,
        src: BytesMut,
        post: C,
        rest: BytesMut,
        result: Result<Decoded<C::Item>, C::Error>,
    | #[trigger]
        C::decodes(pre, src, post, rest, result) ==> decodes_as(
            parse,
            content(src),
            content(rest),
            result,
        )
}

/// Decoders of type `C` refuse only what no more bytes would make a frame.
pub open spec fn refuses_soundly<C: Decoder>(parse: Parse<C::Item>) -> bool {
    forall|
        pre: C,
        src: BytesMut,
        post: C,
        rest: BytesMut,
        result: Result<Decoded<C::Item>, C::Error>,
        more: Seq<u8>,
    |
        #![trigger C::decodes(pre, src, post, rest, result), parse(content(src) + more)]
        C::decodes(pre, src, post, rest, result) && result is Err ==> parse(content(src) + more)
            is None
}

/// One step of a call for the next frame, and what it left; where it asked for a
/// read, also what there was while the buffer was lent out.
pub struct NextTurn<C: Decoder> {
    pub event: FillEvent,
    pub model: ReadModel,
    pub left: ReadModel,
    pub codec: C,
    pub step: NextStep<C::Item, C::Error>,
}

/// The input is in pieces, as reads will bring them; none is empty, for an empty
/// read means the end.
pub open spec fn in_pieces(input: Seq<Seq<u8>>) -> bool {
    forall|i: int| 0 <= i < input.len() ==> (#[trigger] input[i]).len() > 0
}

/// A read into a buffer that held `lent` brought the next piece of the input,
/// or found its end.
pub open spec fn arrives(lent: Seq<u8>, input: Seq<Seq<u8>>, event: FillEvent) -> bool {
    event matches FillEvent::Filled(buffer, Ok(count)) && if input.len() == 0 {
        count == 0 && content(buffer) == lent
    } else {
        count == input[0].len() && content(buffer) == lent + input[0]
    }
}

/// What remains of the input after a read.
pub open spec fn after_read(input: Seq<Seq<u8>>) -> Seq<Seq<u8>> {
    if input.len() == 0 {
        input
    } else {
        input.drop_first()
    }
}

/// `left` is what there is of `model` while its buffer is lent out.
pub open spec fn lent(model: ReadModel, left: ReadModel) -> bool {
    &&& left.state == model.state
    &&& left.bytes() == Seq::<u8>::empty()
}

/// `turns` are the steps of one call for the next frame, from `pre` to the last
/// step, with every read that is asked for taking the next piece of `input`.
pub open spec fn next_run<C: Decoder>(
    pre: ReadModel,
    codec: C,
    turns: Seq<NextTurn<C>>,
    input: Seq<Seq<u8>>,
) -> bool
    decreases turns.len(),
{
    &&& turns.len() > 0
    &&& next_does(pre, codec, turns[0].event, turns[0].model, turns[0].codec, turns[0].step)
    &&& if turns[0].step is Ready {
        turns.len() == 1
    } else {
        &&& turns.len() > 1
        &&& arrives(turns[0].model.bytes(), input, turns[1].event)
        &&& lent(turns[0].model, turns[0].left)
        &&& next_run(turns[0].left, turns[0].codec, turns.drop_first(), after_read(input))
    }
}

/// What remains of the input after all reads of a call.
pub open spec fn input_left<C: Decoder>(turns: Seq<NextTurn<C>>, input: Seq<Seq<u8>>) -> Seq<
    Seq<u8>,
>
    decreases turns.len(),
{
    if turns.len() <= 1 {
        input
    } else {
        input_left(turns.drop_first(), after_read(input))
    }
}

/// The call returned the frame that `total` starts with, and kept what follows
/// it: in the buffer, then in the input left.
pub open spec fn found_frame<C: Decoder>(
    total: Seq<u8>,
    item: C::Item,
    len: nat,
    turns: Seq<NextTurn<C>>,
    input: Seq<Seq<u8>>,
) -> bool {
    let last = turns.last();
    &&& last.step == NextStep::<C::Item, C::Error>::Ready(Some(Ok(item)))
    &&& last.model.state == State::Framing(None)
    &&& last.model.bytes() + input_left(turns, input).flatten() == total.skip(len as int)
}

/// The call read all the input and asked the decoder what it makes of its end.
pub open spec fn reached_end<C: Decoder>(
    total: Seq<u8>,
    turns: Seq<NextTurn<C>>,
    input: Seq<Seq<u8>>,
) -> bool {
    let last = turns.last();
    &&& input_left(turns, input).len() == 0
    &&& exists|before: C, at_end: BytesMut, ended: Result<Decoded<C::Item>, C::Error>|
        {
            &&& #[trigger] ends(before, at_end, last.codec, last.model.buffer, ended)
            &&& content(at_end) == total
            &&& match ended {
                Ok(Decoded::Frame(item)) => {
                    &&& last.model.state == State::Pausing
                    &&& last.step == NextStep::<C::Item, C::Error>::Ready(Some(Ok(item)))
                },
                Ok(_) => {
                    &&& last.model.state == State::Paused
                    &&& last.step == NextStep::<C::Item, C::Error>::Ready(None)
                },
                Err(error) => {
                    &&& last.model.state == State::Errored
                    &&& last.step == NextStep::<C::Item, C::Error>::Ready(Some(Err(error)))
                },
            }
        }
}

/// The decoder refused what it was shown, which is the front of `total` and no
/// whole frame. The call returned its error, and kept what it left.
pub open spec fn refused<C: Decoder>(
    parse: Parse<C::Item>,
    total: Seq<u8>,
    turns: Seq<NextTurn<C>>,
    input: Seq<Seq<u8>>,
) -> bool {
    let last = turns.last();
    &&& last.model.state == State::Errored
    &&& exists|before: C, shown: BytesMut, result: Result<Decoded<C::Item>, C::Error>|
        {
            &&& #[trigger] C::decodes(before, shown, last.codec, last.model.buffer, result)
            &&& content(shown).len() > 0
            &&& content(shown) + input_left(turns, input).flatten() == total
            &&& parse(content(shown)) is None
            &&& result is Err
            &&& last.step == NextStep::<C::Item, C::Error>::Ready(Some(Err(result->Err_0)))
        }
}

/// What a call comes to with `total` ahead: the frame at its front, or else the
/// end. Or the decoder refuses; one that refuses soundly does so only where there
/// is no frame.
pub open spec fn comes_to<C: Decoder>(
    parse: Parse<C::Item>,
    total: Seq<u8>,
    turns: Seq<NextTurn<C>>,
    input: Seq<Seq<u8>>,
) -> bool {
    match parse(total) {
        Some((item, len)) => {
            ||| found_frame(total, item, len, turns, input)
            ||| refused(parse, total, turns, input) && !refuses_soundly::<C>(parse)
        },
        None => {
            ||| reached_end(total, turns, input)
            ||| refused(parse, total, turns, input)
        },
    }
}

/// The bytes at hand when the first step is taken.
pub open spec fn bytes_at_hand(pre: ReadModel, event: FillEvent) -> Seq<u8> {
    match event {
        FillEvent::Start => pre.bytes(),
        FillEvent::Filled(buffer, _) => content(buffer),
    }
}

proof fn lemma_run<C: Decoder>(
    parse: Parse<C::Item>,
    pre: ReadModel,
    codec: C,
    turns: Seq<NextTurn<C>>,
    input: Seq<Seq<u8>>,
)
    requires
        decodes_by::<C>(parse),
        in_pieces(input),
        next_run(pre, codec, turns, input),
        pre.state is Framing,
        match turns[0].event {
            FillEvent::Start => hint_is_true(parse, pre.bytes(), pre.state->Framing_0),
            FillEvent::Filled(buffer, Ok(count)) => if count == 0 {
                input.len() == 0 && parse(content(buffer)) is None
            } else {
                hint_is_true(parse, content(buffer), pre.state->Framing_0)
            },
            _ => false,
        },
    ensures
        comes_to(parse, bytes_at_hand(pre, turns[0].event) + input.flatten(), turns, input),
    decreases turns.len(),
{
    let turn = turns[0];
    let now = bytes_at_hand(pre, turn.event);
    let total = now + input.flatten();
    let hint = pre.state->Framing_0;
    let ending = turn.event matches FillEvent::Filled(_, Ok(count)) && count == 0;
    if ending {
        assert(input.flatten() =~= Seq::<u8>::empty());
        assert(total =~= now);
    } else if turn.step is Ready {
        assert(now + Seq::<u8>::empty() =~= now);
        if let Some((_, len)) = parse(now) {
            assert(total.skip(len as int) =~= turn.model.bytes() + input.flatten());
        }
    } else {
        assert(parse(turn.model.bytes()) is None) by {
            assert(now + Seq::<u8>::empty() =~= now);
            assert(now.len() == 0 ==> now =~= Seq::<u8>::empty());
        }
        assert(turn.model.bytes() == now);
        let next = turns.drop_first();
        let later = after_read(input);
        assert(next[0] == turns[1]);
        if input.len() == 0 {
            assert(input.flatten() =~= Seq::<u8>::empty());
            assert(now + later.flatten() =~= total);
        } else {
            assert((now + input[0]) + later.flatten() =~= total);
            let buffer = turns[1].event->Filled_0;
            assert(hint_is_true(parse, content(buffer), turn.model.state->Framing_0)) by {
                assert forall|more: Seq<u8>| #[trigger]
                    parse(content(buffer) + more) == parse(now + (input[0] + more)) by {
                    assert(content(buffer) + more =~= now + (input[0] + more));
                }
            }
        }
        assert(turns.last() == next.last());
        lemma_run(parse, turn.left, turn.codec, next, later);
    }
}

proof fn lemma_input_left<C: Decoder>(turns: Seq<NextTurn<C>>, input: Seq<Seq<u8>>)
    requires
        in_pieces(input),
    ensures
        in_pieces(input_left(turns, input)),
    decreases turns.len(),
{
    if turns.len() > 1 {
        lemma_input_left(turns.drop_first(), after_read(input));
    }
}

/// The next frame is the one at the front of what was buffered and what is read
/// after it; the call keeps every byte behind it. If there is no whole frame,
/// the call reads all the input and leaves the rest to the end of the stream. If
/// the decoder refuses what it is shown, the call returns its error.
pub proof fn law_next_frame<C: Decoder>(
    parse: Parse<C::Item>,
    pre: ReadModel,
    codec: C,
    turns: Seq<NextTurn<C>>,
    input: Seq<Seq<u8>>,
)
    requires
        decodes_by::<C>(parse),
        in_pieces(input),
        next_run(pre, codec, turns, input),
        turns[0].event is Start,
        pre.state matches State::Framing(hint) && hint_is_true(parse, pre.bytes(), hint),
    ensures
        comes_to(parse, pre.bytes() + input.flatten(), turns, input),
{
    lemma_run(parse, pre, codec, turns, input);
}

/// Two calls returned the same frame and kept the same bytes.
pub open spec fn same_frame<C: Decoder>(
    turns1: Seq<NextTurn<C>>,
    input1: Seq<Seq<u8>>,
    turns2: Seq<NextTurn<C>>,
    input2: Seq<Seq<u8>>,
) -> bool {
    &&& turns1.last().step == turns2.last().step
    &&& turns1.last().step matches NextStep::Ready(Some(Ok(_)))
    &&& turns1.last().model.state == turns2.last().model.state
    &&& turns1.last().model.bytes() + input_left(turns1, input1).flatten()
        == turns2.last().model.bytes() + input_left(turns2, input2).flatten()
}

/// It does not matter in what pieces the bytes come, nor what the decoder was
/// used for before: two calls that find the same bytes ahead return the same
/// frame and keep the same bytes, or both get to the end with all of them, unless
/// the decoder refuses in one of them. One that refuses soundly does not where
/// there is a frame; see also [`law_refusal_is_owed`].
pub proof fn law_pieces_do_not_matter<C: Decoder>(
    parse: Parse<C::Item>,
    pre1: ReadModel,
    codec1: C,
    turns1: Seq<NextTurn<C>>,
    input1: Seq<Seq<u8>>,
    pre2: ReadModel,
    codec2: C,
    turns2: Seq<NextTurn<C>>,
    input2: Seq<Seq<u8>>,
)
    requires
        decodes_by::<C>(parse),
        in_pieces(input1),
        next_run(pre1, codec1, turns1, input1),
        turns1[0].event is Start,
        pre1.state matches State::Framing(hint) && hint_is_true(parse, pre1.bytes(), hint),
        in_pieces(input2),
        next_run(pre2, codec2, turns2, input2),
        turns2[0].event is Start,
        pre2.state matches State::Framing(hint) && hint_is_true(parse, pre2.bytes(), hint),
        pre1.bytes() + input1.flatten() == pre2.bytes() + input2.flatten(),
    ensures
        ({
            let total = pre1.bytes() + input1.flatten();
            let refusal = refused(parse, total, turns1, input1) || refused(
                parse,
                total,
                turns2,
                input2,
            );
            if parse(total) is Some {
                ||| same_frame(turns1, input1, turns2, input2)
                ||| refusal && !refuses_soundly::<C>(parse)
            } else {
                ||| reached_end(total, turns1, input1) && reached_end(total, turns2, input2)
                ||| refusal
            }
        }),
{
    law_next_frame(parse, pre1, codec1, turns1, input1);
    law_next_frame(parse, pre2, codec2, turns2, input2);
}

/// A way to tell what byte strings are refused.
pub type Refuses = spec_fn(Seq<u8>) -> bool;

/// Nothing shorter than `hint` bytes with `bytes` at its front is refused.
pub open spec fn hint_is_safe(refuses: Refuses, bytes: Seq<u8>, hint: Option<usize>) -> bool {
    hint matches Some(size) ==> forall|more: Seq<u8>|
        bytes.len() + more.len() < size ==> !#[trigger] refuses(bytes + more)
}

/// Decoders of type `C` refuse what `refuses` tells and nothing else, whatever
/// they decoded before. That is never nothing and never a whole frame, more bytes
/// do not mend it, and no hint puts it off.
pub open spec fn refuses_by<C: Decoder>(parse: Parse<C::Item>, refuses: Refuses) -> bool {
    &&& !refuses(Seq::empty())
    &&& forall|bytes: Seq<u8>| #[trigger] refuses(bytes) ==> parse(bytes) is None
    &&& forall|bytes: Seq<u8>, more: Seq<u8>|
        #![trigger refuses(bytes + more)]
        refuses(bytes) ==> refuses(bytes + more)
    &&& forall|
        pre: C,
        src: BytesMut,
        post: C,
        rest: BytesMut,
        result: Result<Decoded<C::Item>, C::Error>,
    | #[trigger]
        C::decodes(pre, src, post, rest, result) ==> {
            &&& result is Err <==> refuses(content(src))
            &&& result matches Ok(Decoded::InsufficientAtLeast(size)) ==> hint_is_safe(
                refuses,
                content(src),
                Some(size),
            )
        }
}

proof fn lemma_refusal<C: Decoder>(
    parse: Parse<C::Item>,
    refuses: Refuses,
    pre: ReadModel,
    codec: C,
    turns: Seq<NextTurn<C>>,
    input: Seq<Seq<u8>>,
)
    requires
        decodes_by::<C>(parse),
        refuses_by::<C>(parse, refuses),
        in_pieces(input),
        next_run(pre, codec, turns, input),
        pre.state is Framing,
        match turns[0].event {
            FillEvent::Start => hint_is_safe(refuses, pre.bytes(), pre.state->Framing_0),
            FillEvent::Filled(buffer, Ok(count)) => if count == 0 {
                input.len() == 0 && !refuses(content(buffer))
            } else {
                hint_is_safe(refuses, content(buffer), pre.state->Framing_0)
            },
            _ => false,
        },
        refuses(bytes_at_hand(pre, turns[0].event) + input.flatten()),
    ensures
        refused(parse, bytes_at_hand(pre, turns[0].event) + input.flatten(), turns, input),
    decreases turns.len(),
{
    let turn = turns[0];
    let now = bytes_at_hand(pre, turn.event);
    let total = now + input.flatten();
    assert(now + Seq::<u8>::empty() =~= now);
    if input.len() == 0 {
        assert(input.flatten() =~= Seq::<u8>::empty());
        assert(total =~= now);
    }
    if turn.step is Fill {
        assert(!refuses(now)) by {
            assert(now.len() == 0 ==> now =~= Seq::<u8>::empty());
        }
        let next = turns.drop_first();
        let later = after_read(input);
        assert(next[0] == turns[1]);
        let buffer = turns[1].event->Filled_0;
        assert((now + input[0]) + later.flatten() =~= total);
        assert(hint_is_safe(refuses, content(buffer), turn.model.state->Framing_0)) by {
            assert forall|more: Seq<u8>| #[trigger]
                refuses(content(buffer) + more) == refuses(now + (input[0] + more)) by {
                assert(content(buffer) + more =~= now + (input[0] + more));
            }
        }
        assert(turns.last() == next.last());
        lemma_refusal(parse, refuses, turn.left, turn.codec, next, later);
    }
}

/// Where it is fixed what the decoder refuses, it is fixed what a call comes to,
/// whatever pieces the bytes come in: if what is ahead is refused, the decoder's
/// error, and else the frame at its front or the end.
pub proof fn law_refusal_is_owed<C: Decoder>(
    parse: Parse<C::Item>,
    refuses: Refuses,
    pre: ReadModel,
    codec: C,
    turns: Seq<NextTurn<C>>,
    input: Seq<Seq<u8>>,
)
    requires
        decodes_by::<C>(parse),
        refuses_by::<C>(parse, refuses),
        in_pieces(input),
        next_run(pre, codec, turns, input),
        turns[0].event is Start,
        pre.state matches State::Framing(hint) && hint_is_true(parse, pre.bytes(), hint)
            && hint_is_safe(refuses, pre.bytes(), hint),
    ensures
        ({
            let total = pre.bytes() + input.flatten();
            if refuses(total) {
                refused(parse, total, turns, input)
            } else {
                match parse(total) {
                    Some((item, len)) => found_frame(total, item, len, turns, input),
                    None => reached_end(total, turns, input),
                }
            }
        }),
{
    let total = pre.bytes() + input.flatten();
    law_next_frame(parse, pre, codec, turns, input);
    if refuses(total) {
        lemma_refusal(parse, refuses, pre, codec, turns, input);
    }
}

/// The frames of a byte string, first to last.
pub open spec fn frames<T>(parse: Parse<T>, bytes: Seq<u8>) -> Seq<T>
    decreases bytes.len(),
{
    match parse(bytes) {
        Some((item, len)) => if 0 < len <= bytes.len() {
            seq![item] + frames(parse, bytes.skip(len as int))
        } else {
            Seq::empty()
        },
        None => Seq::empty(),
    }
}

/// What a byte string holds behind its first `count` frames.
pub open spec fn behind<T>(parse: Parse<T>, bytes: Seq<u8>, count: nat) -> Seq<u8>
    decreases count,
{
    if count == 0 {
        bytes
    } else {
        match parse(bytes) {
            Some((_, len)) => behind(parse, bytes.skip(len as int), (count - 1) as nat),
            None => bytes,
        }
    }
}

/// What a byte string holds behind its last whole frame.
pub open spec fn leftover<T>(parse: Parse<T>, bytes: Seq<u8>) -> Seq<u8> {
    behind(parse, bytes, frames(parse, bytes).len())
}

/// `calls` are calls for the next frame, one after the other.
pub open spec fn stream_run<C: Decoder>(
    pre: ReadModel,
    codec: C,
    calls: Seq<Seq<NextTurn<C>>>,
    input: Seq<Seq<u8>>,
) -> bool
    decreases calls.len(),
{
    calls.len() > 0 ==> {
        &&& next_run(pre, codec, calls[0], input)
        &&& calls[0][0].event is Start
        &&& stream_run(
            calls[0].last().model,
            calls[0].last().codec,
            calls.drop_first(),
            input_left(calls[0], input),
        )
    }
}

/// The input that is left when `count` of the calls have been made.
pub open spec fn input_after<C: Decoder>(
    calls: Seq<Seq<NextTurn<C>>>,
    input: Seq<Seq<u8>>,
    count: int,
) -> Seq<Seq<u8>>
    decreases count,
{
    if count <= 0 {
        input
    } else {
        input_after(calls.drop_first(), input_left(calls[0], input), count - 1)
    }
}

/// The first `count` calls returned frames.
pub open spec fn only_frames<C: Decoder>(calls: Seq<Seq<NextTurn<C>>>, count: int) -> bool {
    forall|k: int|
        0 <= k < count ==> ((#[trigger] calls[k]).last().step matches NextStep::Ready(Some(Ok(_))))
}

/// Call after call the stream returns the frames of its bytes in their order,
/// none left out and none twice, and then gets to the end with what follows the
/// last one. If the decoder refuses before that, its error is returned behind the
/// frames that came first; one that refuses soundly does so behind all of them.
pub proof fn law_all_frames<C: Decoder>(
    parse: Parse<C::Item>,
    pre: ReadModel,
    codec: C,
    calls: Seq<Seq<NextTurn<C>>>,
    input: Seq<Seq<u8>>,
)
    requires
        decodes_by::<C>(parse),
        in_pieces(input),
        stream_run(pre, codec, calls, input),
        pre.state matches State::Framing(hint) && hint_is_true(parse, pre.bytes(), hint),
    ensures
        ({
            let total = pre.bytes() + input.flatten();
            let found = frames(parse, total);
            &&& forall|k: int|
                0 <= k < calls.len() && k <= found.len() && only_frames(calls, k) ==> {
                    let ahead = behind(parse, total, k as nat);
                    let left = input_after(calls, input, k);
                    ||| k < found.len() && (#[trigger] calls[k]).last().step == NextStep::<
                        C::Item,
                        C::Error,
                    >::Ready(Some(Ok(found[k])))
                    ||| k == found.len() && reached_end(ahead, calls[k], left)
                    ||| refused(parse, ahead, calls[k], left)
                }
            &&& refuses_soundly::<C>(parse) ==> {
                &&& forall|k: int|
                    0 <= k < calls.len() && k < found.len() ==> (#[trigger] calls[k]).last().step
                        == NextStep::<C::Item, C::Error>::Ready(Some(Ok(found[k])))
                &&& found.len() < calls.len() ==> {
                    let last = calls[found.len() as int];
                    let left = input_after(calls, input, found.len() as int);
                    ||| reached_end(leftover(parse, total), last, left)
                    ||| refused(parse, leftover(parse, total), last, left)
                }
            }
        }),
    decreases calls.len(),
{
    if calls.len() > 0 {
        let total = pre.bytes() + input.flatten();
        let found = frames(parse, total);
        let left = input_left(calls[0], input);
        law_next_frame(parse, pre, codec, calls[0], input);
        lemma_input_left(calls[0], input);
        assert(total + Seq::<u8>::empty() =~= total);
        let last = calls[0].last();
        if last.step matches NextStep::Ready(Some(Ok(_))) && parse(total) is Some {
            let later = calls.drop_first();
            law_all_frames(parse, last.model, last.codec, later, left);
            assert forall|k: int| 0 < k < calls.len() && only_frames(calls, k) implies only_frames(
                later,
                k - 1,
            ) by {
                assert forall|j: int| 0 <= j < k - 1 implies (
                (#[trigger] later[j]).last().step matches NextStep::Ready(Some(Ok(_)))) by {
                    assert(later[j] == calls[j + 1]);
                }
            }
            assert(forall|k: int| 0 < k < calls.len() ==> #[trigger] calls[k] == later[k - 1]);
        }
    }
}

/// Decoders of type `C` have no way of their own with the end of the input.
pub open spec fn ends_plainly<C: Decoder>() -> bool {
    forall|
        pre: C,
        src: BytesMut,
        post: C,
        rest: BytesMut,
        result: Result<Decoded<C::Item>, C::Error>,
    |
        !#[trigger] C::decodes_eof(pre, src, post, rest, result)
}

/// At the end of the input the decoder refused `total`. The call returned its
/// error, and kept what it left.
pub open spec fn refused_at_end<C: Decoder>(total: Seq<u8>, turns: Seq<NextTurn<C>>) -> bool {
    let last = turns.last();
    &&& last.model.state == State::Errored
    &&& exists|before: C, shown: BytesMut, result: Result<Decoded<C::Item>, C::Error>|
        {
            &&& #[trigger] C::decodes(before, shown, last.codec, last.model.buffer, result)
            &&& content(shown) == total
            &&& result is Err
            &&& last.step == NextStep::<C::Item, C::Error>::Ready(Some(Err(result->Err_0)))
        }
}

/// Bytes that remain behind the last frame are an error, and unless the decoder
/// refuses them they stay in the buffer. A stream that ends behind a whole frame
/// just ends, unless the decoder refuses even that.
pub proof fn law_remaining_bytes_are_an_error<C: Decoder>(
    parse: Parse<C::Item>,
    total: Seq<u8>,
    turns: Seq<NextTurn<C>>,
    input: Seq<Seq<u8>>,
)
    requires
        decodes_by::<C>(parse),
        ends_plainly::<C>(),
        parse(total) is None,
        reached_end(total, turns, input),
    ensures
        total.len() > 0 ==> {
            &&& turns.last().step matches NextStep::Ready(Some(Err(_)))
            &&& turns.last().model.state == State::Errored
        },
        refused_at_end(total, turns) || turns.last().model.bytes() == total,
        total.len() == 0 && !refused_at_end(total, turns) ==> {
            &&& turns.last().step == NextStep::<C::Item, C::Error>::Ready(None)
            &&& turns.last().model.state == State::Paused
        },
{
}

/// After the end has been reported, the next call reads again. If that brings
/// something the stream goes on as if it had not ended; else it still has.
pub proof fn law_resumes<C: Decoder>(
    parse: Parse<C::Item>,
    pre: ReadModel,
    codec: C,
    turns: Seq<NextTurn<C>>,
    input: Seq<Seq<u8>>,
)
    requires
        decodes_by::<C>(parse),
        in_pieces(input),
        next_run(pre, codec, turns, input),
        turns[0].event is Start,
        pre.state is Paused,
    ensures
        ({
            let total = pre.bytes() + input.flatten();
            if input.len() == 0 {
                &&& turns.last().step == NextStep::<C::Item, C::Error>::Ready(None)
                &&& turns.last().model.state == pre.state
                &&& turns.last().model.bytes() == pre.bytes()
                &&& turns.last().codec == codec
            } else {
                comes_to(parse, total, turns, input)
            }
        }),
{
    reveal_with_fuel(next_run, 3);
    let turn = turns[0];
    let next = turns.drop_first();
    assert(next[0] == turns[1]);
    assert(turns.last() == next.last());
    if input.len() > 0 {
        let later = after_read(input);
        assert((pre.bytes() + input[0]) + later.flatten() =~= pre.bytes() + input.flatten());
        // A piece that arrives in the paused state is treated as in framing.
        let framing = ReadModel { state: State::Framing(None), ..turn.left };
        assert(next_run(framing, turn.codec, next, later));
        lemma_run(parse, framing, turn.codec, next, later);
    }
}

/// What a call returns tells where the stream stands: a frame leaves it reading
/// frames or giving out the last ones, an error leaves it errored, and the end
/// leaves it paused. No hint of the decoder outlives the call.
pub proof fn law_result_tells_state<C: Decoder>(
    pre: ReadModel,
    codec: C,
    event: FillEvent,
    post: ReadModel,
    codec_after: C,
    result: Option<Result<C::Item, C::Error>>,
)
    requires
        event is Filled ==> reading(pre.state),
        next_does(pre, codec, event, post, codec_after, NextStep::Ready(result)),
    ensures
        match result {
            Some(Ok(_)) => post.state == State::Framing(None) || post.state == State::Pausing,
            Some(Err(_)) => post.state == State::Errored,
            None => post.state == State::Paused,
        },
{
}

/// An error is reported once: the call after it returns the end at once, with
/// neither a read nor the decoder, and the one after that reads again.
pub proof fn law_error_then_end_then_read<C: Decoder>(
    pre: ReadModel,
    codec: C,
    mid: ReadModel,
    codec_mid: C,
    step1: NextStep<C::Item, C::Error>,
    post: ReadModel,
    codec_post: C,
    step2: NextStep<C::Item, C::Error>,
)
    requires
        pre.state is Errored,
        next_does(pre, codec, FillEvent::Start, mid, codec_mid, step1),
        next_does(mid, codec_mid, FillEvent::Start, post, codec_post, step2),
    ensures
        step1 == NextStep::<C::Item, C::Error>::Ready(None),
        step2 == NextStep::<C::Item, C::Error>::Fill(RESERVE),
        post == (ReadModel { state: State::Paused, buffer: pre.buffer }),
        codec_post == codec,
{
}

/// A failed read costs no byte: the buffer is kept as it comes back, and the
/// error is returned.
pub proof fn law_failed_read_keeps_bytes<C: Decoder>(
    pre: ReadModel,
    codec: C,
    buffer: BytesMut,
    cause: std::io::Error,
    post: ReadModel,
    codec_after: C,
    step: NextStep<C::Item, C::Error>,
)
    requires
        next_does(pre, codec, FillEvent::Filled(buffer, Err(cause)), post, codec_after, step),
    ensures
        post.buffer == buffer,
        post.state == State::Errored,
        codec_after == codec,
        step matches NextStep::Ready(Some(Err(_))),
{
}

/// Before every read there is to be room for as many bytes as the decoder lacks
/// by its hint, and for [`RESERVE`] at least.
pub proof fn law_room_meets_hint<C: Decoder>(
    pre: ReadModel,
    codec: C,
    event: FillEvent,
    post: ReadModel,
    codec_after: C,
    room: usize,
)
    requires
        event is Filled ==> reading(pre.state),
        next_does(pre, codec, event, post, codec_after, NextStep::Fill(room)),
    ensures
        reading(post.state),
        room >= RESERVE,
        post.state matches State::Framing(Some(size)) ==> post.bytes().len() + room >= size,
{
}

/// The decoder is not asked while there is nothing to decode, nor while there is
/// less than it has asked for: until then bytes, state and decoder stay.
pub proof fn law_starved_decoder_is_not_asked<C: Decoder>(
    pre: ReadModel,
    codec: C,
    post: ReadModel,
    codec_after: C,
    step: NextStep<C::Item, C::Error>,
)
    requires
        pre.state matches State::Framing(hint) && (pre.bytes().len() == 0 || (
        hint matches Some(size) && pre.bytes().len() < size)),
        next_does(pre, codec, FillEvent::Start, post, codec_after, step),
    ensures
        step is Fill,
        post == pre,
        codec_after == codec,
{
}

/// One step of an unframed read, and what it left; where it asked for a read into
/// the buffer, also what there was while that was lent out.
pub struct ReadTurn {
    pub event: ReadEvent,
    pub model: ReadModel,
    pub left: ReadModel,
    pub step: ReadStep,
}

/// `turns` are what is left of an unframed read once its first step asks for no
/// read of the stream: the caller copies the bytes that are its own, if any.
pub open spec fn copy_run(total: usize, turns: Seq<ReadTurn>) -> bool {
    if turns[0].step is Copy {
        &&& turns.len() == 2
        &&& turns[1].event is Copied
        &&& read_does(turns[0].model, total, turns[1].event, turns[1].model, turns[1].step)
    } else {
        turns.len() == 1
    }
}

/// `turns` are the steps of one unframed read by a caller with room for `total`
/// bytes. If it asked for a read of the stream, that read brought `brought`,
/// whether it succeeded or failed; into the caller's own memory a failed read
/// brings nothing.
pub open spec fn read_run(
    pre: ReadModel,
    total: usize,
    turns: Seq<ReadTurn>,
    brought: Seq<u8>,
) -> bool {
    &&& turns.len() > 0
    &&& turns[0].event is Start
    &&& read_does(pre, total, turns[0].event, turns[0].model, turns[0].step)
    &&& match turns[0].step {
        ReadStep::Fill(_) => {
            &&& turns.len() > 1
            &&& turns[1].event matches ReadEvent::Filled(buffer, result) && content(buffer)
                == turns[0].model.bytes() + brought && (result matches Ok(count) ==> count
                == brought.len())
            &&& lent(turns[0].model, turns[0].left)
            &&& read_does(turns[0].left, total, turns[1].event, turns[1].model, turns[1].step)
            &&& copy_run(total, turns.drop_first())
        },
        ReadStep::Direct => {
            &&& turns.len() == 2
            &&& turns[1].event matches ReadEvent::Direct(result) && brought.len() == match result {
                Ok(count) => count as nat,
                Err(_) => 0,
            }
            &&& brought.len() <= total
            &&& read_does(turns[0].model, total, turns[1].event, turns[1].model, turns[1].step)
        },
        _ => brought.len() == 0 && copy_run(total, turns),
    }
}

/// The bytes that the caller got: those it copied from the front of the buffer,
/// or those read into its own memory.
pub open spec fn delivered(turns: Seq<ReadTurn>, brought: Seq<u8>) -> Seq<u8> {
    match turns.last().event {
        ReadEvent::Copied => {
            let turn = turns[turns.len() - 2];
            turn.model.bytes().take(turn.step->Copy_0 as int)
        },
        ReadEvent::Direct(Ok(_)) => brought,
        _ => Seq::empty(),
    }
}

/// An unframed read hands out the bytes of the stream in their order: what the
/// caller gets, then what stays buffered, are what was buffered and then what was
/// read, also if the read failed. The stream is read only if nothing is buffered
/// and there is room. The caller never gets more than fits, and gets something
/// unless there is no room, or nothing is there, or the read failed. What is
/// reported is the number of bytes it got, or the failure.
pub proof fn law_read_keeps_order(
    pre: ReadModel,
    total: usize,
    turns: Seq<ReadTurn>,
    brought: Seq<u8>,
)
    requires
        read_run(pre, total, turns, brought),
    ensures
        delivered(turns, brought) + turns.last().model.bytes() == pre.bytes() + brought,
        total == 0 || pre.bytes().len() > 0 ==> !(turns[0].step is Fill) && !(turns[0].step
            is Direct) && brought.len() == 0,
        delivered(turns, brought).len() <= total,
        delivered(turns, brought).len() == 0 <==> total == 0 || (pre.bytes().len() == 0 && (
        brought.len() == 0 || turns.last().step matches ReadStep::Done(Err(_)))),
        turns.last().step is Done,
        turns.last().step matches ReadStep::Done(Ok(count)) ==> count == delivered(
            turns,
            brought,
        ).len(),
{
    let got = delivered(turns, brought);
    assert(got + turns.last().model.bytes() =~= pre.bytes() + brought);
}

/// Framed and unframed reads share one stream: an unframed read after a frame
/// goes on right behind that frame. `later` is the input left after both. A
/// decoder that refuses soundly does not refuse where there is a frame.
pub proof fn law_read_goes_on_behind_frame<C: Decoder>(
    parse: Parse<C::Item>,
    pre: ReadModel,
    codec: C,
    call: Seq<NextTurn<C>>,
    input: Seq<Seq<u8>>,
    total: usize,
    turns: Seq<ReadTurn>,
    brought: Seq<u8>,
    later: Seq<u8>,
)
    requires
        decodes_by::<C>(parse),
        in_pieces(input),
        next_run(pre, codec, call, input),
        call[0].event is Start,
        pre.state matches State::Framing(hint) && hint_is_true(parse, pre.bytes(), hint),
        parse(pre.bytes() + input.flatten()) is Some,
        read_run(call.last().model, total, turns, brought),
        brought + later == input_left(call, input).flatten(),
    ensures
        ({
            let all = pre.bytes() + input.flatten();
            let (item, len) = parse(all)->Some_0;
            ||| {
                &&& call.last().step == NextStep::<C::Item, C::Error>::Ready(Some(Ok(item)))
                &&& delivered(turns, brought) + turns.last().model.bytes() + later == all.skip(
                    len as int,
                )
            }
            ||| refused(parse, all, call, input) && !refuses_soundly::<C>(parse)
        }),
{
    law_next_frame(parse, pre, codec, call, input);
    law_read_keeps_order(call.last().model, total, turns, brought);
    assert((call.last().model.bytes() + brought) + later =~= call.last().model.bytes() + (brought
        + later));
}

/// The other way round: a call for a frame after an unframed read finds the
/// frame that starts right behind what that read handed out, unless the read
/// failed or met the end.
pub proof fn law_frame_goes_on_behind_read<C: Decoder>(
    parse: Parse<C::Item>,
    pre: ReadModel,
    total: usize,
    turns: Seq<ReadTurn>,
    brought: Seq<u8>,
    codec: C,
    call: Seq<NextTurn<C>>,
    input: Seq<Seq<u8>>,
)
    requires
        decodes_by::<C>(parse),
        pre.state == State::Framing(None),
        read_run(pre, total, turns, brought),
        total == 0 || delivered(turns, brought).len() > 0,
        in_pieces(input),
        next_run(turns.last().model, codec, call, input),
        call[0].event is Start,
    ensures
        ({
            let all = pre.bytes() + brought + input.flatten();
            comes_to(parse, all.skip(delivered(turns, brought).len() as int), call, input)
        }),
{
    let got = delivered(turns, brought);
    law_read_keeps_order(pre, total, turns, brought);
    law_next_frame(parse, turns.last().model, codec, call, input);
    assert((pre.bytes() + brought + input.flatten()).skip(got.len() as int)
        =~= turns.last().model.bytes() + input.flatten());
}

/// One unframed read: the room the caller had, the steps, and what was read of
/// the stream.
pub struct ReadCall {
    pub total: usize,
    pub turns: Seq<ReadTurn>,
    pub brought: Seq<u8>,
}

/// `calls` are unframed reads, one after the other, whether they succeed or fail.
pub open spec fn reads_run(pre: ReadModel, calls: Seq<ReadCall>) -> bool
    decreases calls.len(),
{
    calls.len() > 0 ==> {
        &&& read_run(pre, calls[0].total, calls[0].turns, calls[0].brought)
        &&& reads_run(calls[0].turns.last().model, calls.drop_first())
    }
}

/// The bytes that the caller got from all the reads.
pub open spec fn all_delivered(calls: Seq<ReadCall>) -> Seq<u8>
    decreases calls.len(),
{
    if calls.len() == 0 {
        Seq::empty()
    } else {
        delivered(calls[0].turns, calls[0].brought) + all_delivered(calls.drop_first())
    }
}

/// The bytes that were read of the stream by all the reads.
pub open spec fn all_brought(calls: Seq<ReadCall>) -> Seq<u8>
    decreases calls.len(),
{
    if calls.len() == 0 {
        Seq::empty()
    } else {
        calls[0].brought + all_brought(calls.drop_first())
    }
}

/// The bytes that stay buffered after all the reads.
pub open spec fn buffered_after(pre: ReadModel, calls: Seq<ReadCall>) -> Seq<u8> {
    if calls.len() == 0 {
        pre.bytes()
    } else {
        calls.last().turns.last().model.bytes()
    }
}

/// What unframed reads hand out, put together, and then what stays buffered, are
/// what was buffered before and then all that was read of the stream: in order,
/// none left out and none twice, whichever of the reads failed.
pub proof fn law_reads_deliver_the_stream(pre: ReadModel, calls: Seq<ReadCall>)
    requires
        reads_run(pre, calls),
    ensures
        all_delivered(calls) + buffered_after(pre, calls) == pre.bytes() + all_brought(calls),
    decreases calls.len(),
{
    let all = pre.bytes() + all_brought(calls);
    let last = buffered_after(pre, calls);
    if calls.len() == 0 {
        assert(all_delivered(calls) + last =~= all);
    } else {
        let call = calls[0];
        let mid = call.turns.last().model;
        let later = calls.drop_first();
        let got = delivered(call.turns, call.brought);
        law_read_keeps_order(pre, call.total, call.turns, call.brought);
        law_reads_deliver_the_stream(mid, later);
        assert(buffered_after(mid, later) == last);
        assert(all_delivered(calls) + last =~= got + (all_delivered(later) + last));
        assert(got + (mid.bytes() + all_brought(later)) =~= (got + mid.bytes()) + all_brought(
            later,
        ));
        assert((pre.bytes() + call.brought) + all_brought(later) =~= all);
    }
}

/// Looking at the data at hand does not disturb a stream that reads frames,
/// whatever the decoder. If there is data, nothing changes. If there is none, a
/// call for a frame would have asked for a read as well; and if the read brings
/// something, the call after the look does what it would have done with that.
pub proof fn law_peek_keeps_next_step<C: Decoder>(
    pre: ReadModel,
    asked: ReadModel,
    step: PeekStep,
    left: ReadModel,
    buffer: BytesMut,
    count: usize,
    peeked: ReadModel,
    peeked_step: PeekStep,
    codec: C,
    post: ReadModel,
    codec_after: C,
    next: NextStep<C::Item, C::Error>,
)
    requires
        pre.state is Framing,
        peek_does(pre, FillEvent::Start, asked, step),
        step is Fill ==> {
            &&& lent(asked, left)
            &&& count > 0
            &&& peek_does(left, FillEvent::Filled(buffer, Ok(count)), peeked, peeked_step)
        },
    ensures
        asked == pre,
        step is Done ==> step == PeekStep::Done(Ok(())),
        step is Fill ==> {
            let room = fill_size(pre.state->Framing_0, 0);
            &&& next_does(pre, codec, FillEvent::Start, pre, codec, NextStep::Fill(room))
            &&& peeked_step == PeekStep::Done(Ok(()))
            &&& next_does(peeked, codec, FillEvent::Start, post, codec_after, next) == next_does(
                left,
                codec,
                FillEvent::Filled(buffer, Ok(count)),
                post,
                codec_after,
                next,
            )
        },
{
}

/// Looking at the data at hand does not disturb the frames: if there is some, or
/// some is read, the next frame is the one that was next before.
pub proof fn law_peek_keeps_frames<C: Decoder>(
    parse: Parse<C::Item>,
    pre: ReadModel,
    peeked: ReadModel,
    step: PeekStep,
    left: ReadModel,
    event: FillEvent,
    filled: ReadModel,
    filled_step: PeekStep,
    codec: C,
    turns: Seq<NextTurn<C>>,
    input: Seq<Seq<u8>>,
)
    requires
        decodes_by::<C>(parse),
        in_pieces(input),
        pre.state matches State::Framing(hint) && hint_is_true(parse, pre.bytes(), hint),
        peek_does(pre, FillEvent::Start, peeked, step),
        step is Fill ==> {
            &&& input.len() > 0
            &&& arrives(peeked.bytes(), input, event)
            &&& lent(peeked, left)
            &&& peek_does(left, event, filled, filled_step)
            &&& next_run(filled, codec, turns, after_read(input))
        },
        step is Done ==> next_run(peeked, codec, turns, input),
        turns[0].event is Start,
    ensures
        step is Done <==> pre.bytes().len() > 0,
        step is Done ==> peeked == pre && step == PeekStep::Done(Ok(())),
        step is Fill ==> filled.state == pre.state && filled.bytes() == input[0] && filled_step
            == PeekStep::Done(Ok(())),
        ({
            let total = pre.bytes() + input.flatten();
            let later = if step is Fill {
                after_read(input)
            } else {
                input
            };
            comes_to(parse, total, turns, later)
        }),
{
    if step is Fill {
        assert(pre.bytes() + input[0] =~= input[0]);
        let hint = pre.state->Framing_0;
        assert(hint_is_true(parse, input[0], hint)) by {
            assert forall|more: Seq<u8>| #[trigger]
                parse(input[0] + more) == parse(pre.bytes() + (input[0] + more)) by {
                assert(input[0] + more =~= pre.bytes() + (input[0] + more));
            }
        }
        assert(input[0] + after_read(input).flatten() =~= pre.bytes() + input.flatten());
        law_next_frame(parse, filled, codec, turns, after_read(input));
    } else {
        law_next_frame(parse, peeked, codec, turns, input);
    }
}

} // verus!
