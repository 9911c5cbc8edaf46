//! What is sent through one framed stream and read through another.
use vstd::prelude::*;
use bytes::BytesMut;
use crate::buffer::content;
use crate::read::{NextStep, ReadModel, State};
use crate::read_laws::{NextTurn, Parse};
use crate::read_laws::{
    behind, decodes_by, frames, in_pieces, input_after, law_all_frames, leftover, only_frames,
    reached_end, refused, refuses_soundly, stream_run,
};
use crate::sync_codec::{Decoder, Encoder};
use crate::write_laws::Output;
use crate::write_laws::{
    all_taken_on, appended, buffer_after, buffer_at_last, codec_after, found_by_encoder,
    law_flush_sends_all, law_outputs_keep_order, law_send_keeps_order, only_appends, outputs_run,
};

verus! {

/// Where encoders of type `C` succeed, they append what `encoding` makes of the
/// item.
pub open spec fn encodes_by<C: Encoder<Item>, Item>(encoding: spec_fn(Item) -> Seq<u8>) -> bool {
    forall|
        pre: C,
        item: Item,
        dst: BytesMut,
        post: C,
        out: BytesMut,
        result: Result<(), C::Error>,
    | #[trigger]
        C::encodes(pre, item, dst, post, out, result) && result is Ok ==> content(out) == content(
            dst,
        ) + encoding(item)
}

/// An encoded item is a frame, and splits off as that item.
pub open spec fn decodes_what_encodes<T>(
    parse: Parse<T>,
    encoding: spec_fn(T) -> Seq<u8>,
) -> bool {
    forall|item: T, more: Seq<u8>| #[trigger]
        parse(encoding(item) + more) == Some((item, encoding(item).len()))
}

/// The encoded items, one behind the other.
pub open spec fn encoded<T>(encoding: spec_fn(T) -> Seq<u8>, items: Seq<T>) -> Seq<u8>
    decreases items.len(),
{
    if items.len() == 0 {
        Seq::empty()
    } else {
        encoding(items[0]) + encoded(encoding, items.drop_first())
    }
}

/// The operations send `items` in turn and then what is buffered.
pub open spec fn sends_then_flushes<C: Encoder<Item>, Item>(
    outputs: Seq<Output<C, Item>>,
    items: Seq<Item>,
) -> bool {
    &&& outputs.len() == items.len() + 1
    &&& forall|i: int|
        0 <= i < items.len() ==> ((#[trigger] outputs[i]) matches Output::Send(item, _) && item
            == items[i])
    &&& outputs.last() is Flush
}

/// The frames of encoded items are those items, and behind some of them are the
/// others.
proof fn lemma_frames_of_encoded<T>(
    parse: Parse<T>,
    encoding: spec_fn(T) -> Seq<u8>,
    items: Seq<T>,
)
    requires
        parse(Seq::empty()) is None,
        forall|item: T| (#[trigger] encoding(item)).len() > 0,
        decodes_what_encodes(parse, encoding),
    ensures
        frames(parse, encoded(encoding, items)) == items,
        forall|k: int|
            0 <= k <= items.len() ==> #[trigger] behind(
                parse,
                encoded(encoding, items),
                k as nat,
            ) == encoded(encoding, items.skip(k)),
    decreases items.len(),
{
    if items.len() > 0 {
        let rest = encoded(encoding, items.drop_first());
        let first = encoding(items[0]);
        lemma_frames_of_encoded(parse, encoding, items.drop_first());
        assert(first.len() > 0);
        assert(parse(first + rest) == Some((items[0], first.len())));
        assert((first + rest).skip(first.len() as int) =~= rest);
        assert(seq![items[0]] + items.drop_first() =~= items);
        assert forall|k: int| 0 <= k <= items.len() implies #[trigger] behind(
            parse,
            encoded(encoding, items),
            k as nat,
        ) == encoded(encoding, items.skip(k)) by {
            if k == 0 {
                assert(items.skip(0) =~= items);
            } else {
                assert(items.skip(k) =~= items.drop_first().skip(k - 1));
                assert(behind(parse, rest, (k - 1) as nat) == encoded(encoding, items.skip(k)));
            }
        }
    } else {
        assert(items.skip(0) =~= items);
        assert(frames(parse, encoded(encoding, items)) =~= items);
    }
}

proof fn lemma_only_appends<C: Encoder<Item>, Item>(encoding: spec_fn(Item) -> Seq<u8>)
    requires
        encodes_by::<C, Item>(encoding),
    ensures
        only_appends::<C, Item>(),
{
    assert forall|
        pre: C,
        item: Item,
        dst: BytesMut,
        post: C,
        out: BytesMut,
        result: Result<(), C::Error>,
    | #[trigger]
        C::encodes(pre, item, dst, post, out, result) && result is Ok implies content(
        dst,
    ).is_prefix_of(content(out)) by {
        let bytes = content(dst);
        assert(bytes =~= (bytes + encoding(item)).subrange(0, bytes.len() as int));
    }
}

/// Sending items and then what is buffered takes on the encoded items.
proof fn lemma_taken_on<C: Encoder<Item>, Item>(
    encoding: spec_fn(Item) -> Seq<u8>,
    pre: BytesMut,
    codec: C,
    outputs: Seq<Output<C, Item>>,
    wires: Seq<Seq<u8>>,
    items: Seq<Item>,
)
    requires
        encodes_by::<C, Item>(encoding),
        outputs_run(pre, codec, outputs, wires),
        sends_then_flushes(outputs, items),
    ensures
        all_taken_on(pre, outputs) == encoded(encoding, items),
    decreases items.len(),
{
    if items.len() > 0 {
        let later = outputs.drop_first();
        assert(outputs[0] is Send);
        assert forall|i: int| 0 <= i < items.len() - 1 implies (
            (#[trigger] later[i]) matches Output::Send(item, _) && item == items.drop_first()[i]
        ) by {
            assert(later[i] == outputs[i + 1]);
        }
        let turns = outputs[0]->Send_1;
        let found = found_by_encoder(pre);
        lemma_only_appends::<C, Item>(encoding);
        law_send_keeps_order(pre, codec, items[0], turns, wires[0]);
        assert((found + encoding(items[0])).skip(found.len() as int) =~= encoding(items[0]));
        assert((found + appended(pre, turns)).skip(found.len() as int) =~= appended(pre, turns));
        lemma_taken_on(
            encoding,
            buffer_after(outputs[0]),
            codec_after(codec, outputs[0]),
            later,
            wires.drop_first(),
            items.drop_first(),
        );
    } else {
        reveal_with_fuel(all_taken_on, 2);
        assert(outputs[0] == outputs.last());
        assert(all_taken_on(pre, outputs) =~= Seq::<u8>::empty());
    }
}

/// The last operation leaves nothing buffered if it sends what is.
proof fn lemma_flushed_at_last<C: Encoder<Item>, Item>(
    pre: BytesMut,
    codec: C,
    outputs: Seq<Output<C, Item>>,
    wires: Seq<Seq<u8>>,
)
    requires
        outputs_run(pre, codec, outputs, wires),
        outputs.len() > 0,
        outputs.last() is Flush,
    ensures
        content(buffer_at_last(pre, outputs)) == Seq::<u8>::empty(),
    decreases outputs.len(),
{
    if outputs.len() == 1 {
        law_flush_sends_all(pre, outputs[0]->Flush_0, wires[0]);
    } else {
        let later = outputs.drop_first();
        lemma_flushed_at_last(
            buffer_after(outputs[0]),
            codec_after(codec, outputs[0]),
            later,
            wires.drop_first(),
        );
        assert(later.last() == outputs.last());
    }
}

/// What one side sends and flushes, the other side reads: the same items in the
/// same order, in whatever pieces the bytes travel, and then the end, unless the
/// decoder refuses a part of an item before that. One that refuses soundly does
/// not.
pub proof fn law_round_trip<E: Encoder<T>, C: Decoder<Item = T>, T>(
    parse: Parse<T>,
    encoding: spec_fn(T) -> Seq<u8>,
    items: Seq<T>,
    unsent: BytesMut,
    encoder: E,
    outputs: Seq<Output<E, T>>,
    wires: Seq<Seq<u8>>,
    unread: ReadModel,
    decoder: C,
    calls: Seq<Seq<NextTurn<C>>>,
    input: Seq<Seq<u8>>,
)
    requires
        encodes_by::<E, T>(encoding),
        decodes_by::<C>(parse),
        decodes_what_encodes(parse, encoding),
        sends_then_flushes(outputs, items),
        content(unsent) == Seq::<u8>::empty(),
        outputs_run(unsent, encoder, outputs, wires),
        in_pieces(input),
        input.flatten() == wires.flatten(),
        unread.state == State::Framing(None),
        unread.bytes() == Seq::<u8>::empty(),
        stream_run(unread, decoder, calls, input),
    ensures
        forall|k: int|
            0 <= k < calls.len() && k <= items.len() && only_frames(calls, k) ==> {
                let ahead = encoded(encoding, items.skip(k));
                let left = input_after(calls, input, k);
                ||| k < items.len() && (#[trigger] calls[k]).last().step == NextStep::<
                    C::Item,
                    C::Error,
                >::Ready(Some(Ok(items[k])))
                ||| k == items.len() && reached_end(Seq::empty(), calls[k], left)
                ||| k < items.len() && refused(parse, ahead, calls[k], left)
            },
        refuses_soundly::<C>(parse) ==> {
            &&& forall|k: int|
                0 <= k < calls.len() && k < items.len() ==> (#[trigger] calls[k]).last().step
                    == NextStep::<C::Item, C::Error>::Ready(Some(Ok(items[k])))
            &&& items.len() < calls.len() ==> reached_end(
                Seq::empty(),
                calls[items.len() as int],
                input_after(calls, input, items.len() as int),
            )
        },
{
    lemma_only_appends::<E, T>(encoding);
    law_outputs_keep_order(unsent, encoder, outputs, wires);
    lemma_taken_on(encoding, unsent, encoder, outputs, wires, items);
    lemma_flushed_at_last(unsent, encoder, outputs, wires);
    let bytes = encoded(encoding, items);
    assert(wires.flatten() + Seq::<u8>::empty() =~= wires.flatten());
    assert(Seq::<u8>::empty() + bytes =~= bytes);
    assert(unread.bytes() + input.flatten() =~= bytes);
    assert forall|item: T| (#[trigger] encoding(item)).len() > 0 by {
        let whole = encoding(item);
        assert(whole + Seq::<u8>::empty() =~= whole);
        assert(parse(whole + Seq::<u8>::empty()) == Some((item, whole.len())));
    }
    lemma_frames_of_encoded(parse, encoding, items);
    law_all_frames(parse, unread, decoder, calls, input);
    assert(encoded(encoding, items.skip(items.len() as int)) == Seq::<u8>::empty());
    assert(leftover(parse, bytes) == Seq::<u8>::empty());
}

} // verus!
