//! What holds of reads of frames, looks at the data and unframed reads together,
//! in whatever order they come and whether they succeed or fail.
use vstd::prelude::*;
use bytes::BytesMut;
use crate::buffer::content;
use crate::read::{next_does, peek_does, FillEvent, PeekStep, ReadModel};
use crate::read_laws::{bytes_at_hand, delivered, law_read_keeps_order, lent, read_run};
use crate::read_laws::{NextTurn, ReadCall};
use crate::sync_codec::{Decoded, Decoder};

verus! {

/// Decoders of type `C` take bytes off the front of the buffer, or none, and do
/// nothing else to it.
pub open spec fn only_takes<C: Decoder>() -> bool {
    forall|
        pre: C,
        src: BytesMut,
        post: C,
        rest: BytesMut,
        result: Result<Decoded<C::Item>, C::Error>,
    |
        #![trigger C::decodes(pre, src, post, rest, result)]
        #![trigger C::decodes_eof(pre, src, post, rest, result)]
        C::decodes(pre, src, post, rest, result) || C::decodes_eof(pre, src, post, rest, result)
            ==> content(rest).is_suffix_of(content(src))
}

/// A read into a buffer that held `lent` put `brought` behind that, whether it
/// succeeded or failed.
pub open spec fn brings(lent: Seq<u8>, brought: Seq<u8>, event: FillEvent) -> bool {
    event matches FillEvent::Filled(buffer, result) && {
        &&& content(buffer) == lent + brought
        &&& result matches Ok(count) ==> count == brought.len()
    }
}

/// `turns` are the steps of one call for the next frame. The reads that it asked
/// for brought `brought`, each its own.
pub open spec fn frame_run<C: Decoder>(
    pre: ReadModel,
    codec: C,
    turns: Seq<NextTurn<C>>,
    brought: Seq<Seq<u8>>,
) -> bool
    decreases turns.len(),
{
    &&& turns.len() == brought.len() + 1
    &&& next_does(pre, codec, turns[0].event, turns[0].model, turns[0].codec, turns[0].step)
    &&& if turns[0].step is Ready {
        turns.len() == 1
    } else {
        &&& turns.len() > 1
        &&& brings(turns[0].model.bytes(), brought[0], turns[1].event)
        &&& lent(turns[0].model, turns[0].left)
        &&& frame_run(turns[0].left, turns[0].codec, turns.drop_first(), brought.drop_first())
    }
}

/// The bytes that the decoder took out in the course of a call: at each step,
/// those at hand but for those that it left.
pub open spec fn taken_out<C: Decoder>(pre: ReadModel, turns: Seq<NextTurn<C>>) -> Seq<u8>
    decreases turns.len(),
{
    if turns.len() == 0 {
        Seq::empty()
    } else {
        let at_hand = bytes_at_hand(pre, turns[0].event);
        at_hand.take(at_hand.len() - turns[0].model.bytes().len()) + taken_out(
            turns[0].left,
            turns.drop_first(),
        )
    }
}

proof fn lemma_frame_run<C: Decoder>(
    pre: ReadModel,
    codec: C,
    turns: Seq<NextTurn<C>>,
    brought: Seq<Seq<u8>>,
)
    requires
        only_takes::<C>(),
        frame_run(pre, codec, turns, brought),
    ensures
        taken_out(pre, turns) + turns.last().model.bytes() == bytes_at_hand(pre, turns[0].event)
            + brought.flatten(),
    decreases turns.len(),
{
    let turn = turns[0];
    let at_hand = bytes_at_hand(pre, turn.event);
    let rest = turn.model.bytes();
    let taken = at_hand.take(at_hand.len() - rest.len());
    let next = turns.drop_first();
    assert(rest.is_suffix_of(at_hand)) by {
        assert(at_hand =~= at_hand.subrange(0, at_hand.len() as int));
    }
    assert(taken + rest =~= at_hand);
    if turn.step is Ready {
        assert(taken_out(turn.left, next) =~= Seq::<u8>::empty());
        assert(brought.flatten() =~= Seq::<u8>::empty());
        assert(taken_out(pre, turns) =~= taken);
        assert(at_hand + brought.flatten() =~= at_hand);
    } else {
        let later = brought.drop_first();
        lemma_frame_run(turn.left, turn.codec, next, later);
        assert(turns.last() == next.last());
        assert(next[0] == turns[1]);
        assert(taken_out(pre, turns) + turns.last().model.bytes() =~= taken + (taken_out(
            turn.left,
            next,
        ) + next.last().model.bytes()));
        assert(taken + ((rest + brought[0]) + later.flatten()) =~= (taken + rest) + (brought[0]
            + later.flatten()));
        assert(brought.flatten() =~= brought[0] + later.flatten());
    }
}

/// A call for a frame loses no byte, whatever it returns and also if a read
/// fails: what the decoder took out, then what stays buffered, are what was
/// buffered and then what was read.
pub proof fn law_frame_keeps_order<C: Decoder>(
    pre: ReadModel,
    codec: C,
    turns: Seq<NextTurn<C>>,
    brought: Seq<Seq<u8>>,
)
    requires
        only_takes::<C>(),
        frame_run(pre, codec, turns, brought),
        turns[0].event is Start,
    ensures
        taken_out(pre, turns) + turns.last().model.bytes() == pre.bytes() + brought.flatten(),
{
    lemma_frame_run(pre, codec, turns, brought);
}

/// One step of a look at the data, and what it left; where it asked for a read,
/// also what there was while the buffer was lent out.
pub struct PeekTurn {
    pub event: FillEvent,
    pub model: ReadModel,
    pub left: ReadModel,
    pub step: PeekStep,
}

/// `turns` are the steps of one look at the data. If it asked for a read, that
/// brought `brought`.
pub open spec fn peek_run(pre: ReadModel, turns: Seq<PeekTurn>, brought: Seq<u8>) -> bool {
    &&& turns.len() > 0
    &&& turns[0].event is Start
    &&& peek_does(pre, turns[0].event, turns[0].model, turns[0].step)
    &&& if turns[0].step is Fill {
        &&& turns.len() == 2
        &&& brings(turns[0].model.bytes(), brought, turns[1].event)
        &&& lent(turns[0].model, turns[0].left)
        &&& peek_does(turns[0].left, turns[1].event, turns[1].model, turns[1].step)
    } else {
        turns.len() == 1 && brought.len() == 0
    }
}

/// A look at the data takes nothing out: what can be seen is what was buffered
/// and then what was read, and the stream is read only if nothing is buffered.
pub proof fn law_peek_keeps_order(pre: ReadModel, turns: Seq<PeekTurn>, brought: Seq<u8>)
    requires
        peek_run(pre, turns, brought),
    ensures
        turns.last().model.bytes() == pre.bytes() + brought,
        turns.last().step is Done,
        turns[0].step is Fill <==> pre.bytes().len() == 0,
{
    assert(turns.last().model.bytes() =~= pre.bytes() + brought);
}

/// One use of the reading half, with the steps it took and what was read of the
/// stream: a call for a frame with some decoder, a look at the data, or an
/// unframed read.
pub enum Input<C: Decoder> {
    Frame(C, Seq<NextTurn<C>>, Seq<Seq<u8>>),
    Peek(Seq<PeekTurn>, Seq<u8>),
    Read(ReadCall),
}

impl<C: Decoder> Input<C> {
    /// This is a use of `pre`.
    pub open spec fn of(self, pre: ReadModel) -> bool {
        match self {
            Input::Frame(codec, turns, brought) => {
                &&& frame_run(pre, codec, turns, brought)
                &&& turns[0].event is Start
            },
            Input::Peek(turns, brought) => peek_run(pre, turns, brought),
            Input::Read(call) => read_run(pre, call.total, call.turns, call.brought),
        }
    }

    /// What it leaves.
    pub open spec fn post(self) -> ReadModel {
        match self {
            Input::Frame(_, turns, _) => turns.last().model,
            Input::Peek(turns, _) => turns.last().model,
            Input::Read(call) => call.turns.last().model,
        }
    }

    /// The bytes that were read of the stream.
    pub open spec fn came_in(self) -> Seq<u8> {
        match self {
            Input::Frame(_, _, brought) => brought.flatten(),
            Input::Peek(_, brought) => brought,
            Input::Read(call) => call.brought,
        }
    }

    /// The bytes that a decoder or a caller got.
    pub open spec fn went_out(self, pre: ReadModel) -> Seq<u8> {
        match self {
            Input::Frame(_, turns, _) => taken_out(pre, turns),
            Input::Peek(_, _) => Seq::empty(),
            Input::Read(call) => delivered(call.turns, call.brought),
        }
    }
}

/// `inputs` are uses of the reading half, one after the other.
pub open spec fn inputs_run<C: Decoder>(pre: ReadModel, inputs: Seq<Input<C>>) -> bool
    decreases inputs.len(),
{
    inputs.len() > 0 ==> {
        &&& inputs[0].of(pre)
        &&& inputs_run(inputs[0].post(), inputs.drop_first())
    }
}

/// The bytes that were read of the stream by all of them.
pub open spec fn all_came_in<C: Decoder>(inputs: Seq<Input<C>>) -> Seq<u8>
    decreases inputs.len(),
{
    if inputs.len() == 0 {
        Seq::empty()
    } else {
        inputs[0].came_in() + all_came_in(inputs.drop_first())
    }
}

/// The bytes that decoders and callers got from all of them.
pub open spec fn all_went_out<C: Decoder>(pre: ReadModel, inputs: Seq<Input<C>>) -> Seq<u8>
    decreases inputs.len(),
{
    if inputs.len() == 0 {
        Seq::empty()
    } else {
        inputs[0].went_out(pre) + all_went_out(inputs[0].post(), inputs.drop_first())
    }
}

/// The bytes that stay buffered after all of them.
pub open spec fn stays<C: Decoder>(pre: ReadModel, inputs: Seq<Input<C>>) -> Seq<u8> {
    if inputs.len() == 0 {
        pre.bytes()
    } else {
        inputs.last().post().bytes()
    }
}

/// Framed and unframed reads share one stream. Whatever their order, and
/// whichever of them fail, what decoders and callers get, then what stays
/// buffered, are what was buffered and then all that was read of the stream: in
/// order, no byte left out and none twice.
pub proof fn law_inputs_keep_order<C: Decoder>(pre: ReadModel, inputs: Seq<Input<C>>)
    requires
        only_takes::<C>(),
        inputs_run(pre, inputs),
    ensures
        all_went_out(pre, inputs) + stays(pre, inputs) == pre.bytes() + all_came_in(inputs),
    decreases inputs.len(),
{
    let all = pre.bytes() + all_came_in(inputs);
    let last = stays(pre, inputs);
    if inputs.len() == 0 {
        assert(all_went_out(pre, inputs) + last =~= all);
    } else {
        let first = inputs[0];
        let later = inputs.drop_first();
        let mid = first.post();
        let out = first.went_out(pre);
        match first {
            Input::Frame(codec, turns, brought) => {
                law_frame_keeps_order(pre, codec, turns, brought);
            },
            Input::Peek(turns, brought) => {
                law_peek_keeps_order(pre, turns, brought);
                assert(out + mid.bytes() =~= mid.bytes());
            },
            Input::Read(call) => {
                law_read_keeps_order(pre, call.total, call.turns, call.brought);
            },
        }
        law_inputs_keep_order(mid, later);
        assert(stays(mid, later) == last);
        assert(all_went_out(pre, inputs) + last =~= out + (all_went_out(mid, later) + last));
        assert(out + (mid.bytes() + all_came_in(later)) =~= (out + mid.bytes()) + all_came_in(
            later,
        ));
        assert((pre.bytes() + first.came_in()) + all_came_in(later) =~= all);
    }
}

} // verus!
