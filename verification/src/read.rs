//! The reading half: what to do next with the bytes at hand, and what to make
//! of the bytes that arrive.
//!
//! Nothing here waits. An operation is driven by events: the first call says
//! that it starts, and where a step asks for input, the caller performs the
//! read and calls again with what came of it.
use vstd::prelude::*;
use bytes::BytesMut;
use crate::buffer::{
    advance, bytes_of, bytes_of_mut, content, may_hold, room_behind, room_falls_by, room_grows_to,
    same_room, take,
};
use crate::sync_codec::{convert, converted, ends, Decoded, Decoder};

verus! {

/// Room that a new buffer starts with, and the size from which a transfer
/// bypasses the buffers.
pub const INITIAL_CAPACITY: usize = 8 * 1024;

/// Room that is made at least before a read.
pub const RESERVE: usize = 4096;

/// Where a stream of frames stands.
#[derive(Debug, Clone, Copy, PartialEq, Eq, Structural)]
pub enum State {
    /// Frames are decoded and input is read in turn. The decoder may have named
    /// a number of bytes below which it need not be asked again.
    Framing(Option<usize>),
    /// The input has ended; the decoder gives out what it still has.
    Pausing,
    /// The end has been reported; another read may resume the stream.
    Paused,
    /// An error has been reported.
    Errored,
}

/// The reading half as contracts see it: its state, and its buffer with the bytes
/// not yet consumed.
pub struct ReadModel {
    pub state: State,
    pub buffer: BytesMut,
}

impl ReadModel {
    /// The bytes not yet consumed.
    pub open spec fn bytes(self) -> Seq<u8> {
        content(self.buffer)
    }
}

/// What happened since the last step of an operation that reads.
#[derive(Debug)]
pub enum FillEvent {
    /// The operation starts.
    Start,
    /// A read into the lent buffer ended; the buffer comes back with its result.
    Filled(BytesMut, Result<usize, std::io::Error>),
}

/// What happened since the last step of [`ReadState::read`].
#[derive(Debug)]
pub enum ReadEvent {
    /// The operation starts.
    Start,
    /// A read into the lent buffer ended; the buffer comes back with its result.
    Filled(BytesMut, Result<usize, std::io::Error>),
    /// A read straight into the caller's memory ended.
    Direct(Result<usize, std::io::Error>),
    /// The bytes that were the caller's have been copied.
    Copied,
}

/// What [`ReadState::next_with`] asks for or has come to.
#[derive(Debug)]
pub enum NextStep<T, E> {
    /// Make room for so many bytes at least, read, and report the result.
    Fill(usize),
    /// The next frame, an error, or the end of the stream for now.
    Ready(Option<Result<T, E>>),
}

/// What [`ReadState::peek_data`] asks for or has come to.
#[derive(Debug)]
pub enum PeekStep {
    /// Make room for so many bytes at least, read, and report the result.
    Fill(usize),
    /// The bytes at hand are to be seen in the buffer, or the read failed.
    Done(Result<(), std::io::Error>),
}

/// What [`ReadState::read`] asks for or has come to.
#[derive(Debug)]
pub enum ReadStep {
    /// Make room for so many bytes at least, read, and report the result.
    Fill(usize),
    /// Read straight into the caller's memory and report the result.
    Direct,
    /// So many bytes at the front of the buffer are the caller's: copy them, see
    /// [`ReadState::front`], and report that.
    Copy(usize),
    /// The caller's memory holds so many bytes, or the read failed.
    Done(Result<usize, std::io::Error>),
}

/// A buffer that is lent out to be read into, at `begin..end`.
#[derive(Debug)]
pub struct Lease {
    pub buffer: BytesMut,
    pub begin: usize,
    pub end: usize,
}

/// The state and the buffer of the reading half.
#[derive(Debug)]
pub struct ReadState {
    state: State,
    buffer: BytesMut,
}

impl View for ReadState {
    type V = ReadModel;

    closed spec fn view(&self) -> ReadModel {
        ReadModel { state: self.state, buffer: self.buffer }
    }
}

/// What there is to do on behalf of the decoder.
pub enum Plan {
    Decode,
    DecodeEof,
    Fill(usize),
    Stop,
}

/// The room that a read needs with `len` bytes at hand: what the decoder lacks
/// according to its hint, and never less than [`RESERVE`].
pub open spec fn fill_size(hint: Option<usize>, len: nat) -> usize {
    match hint {
        Some(size) => if size > len + RESERVE {
            (size - len) as usize
        } else {
            RESERVE
        },
        None => RESERVE,
    }
}

/// It is no use asking the decoder: there is nothing to decode, or less than it
/// has asked for.
pub open spec fn starved(hint: Option<usize>, len: nat) -> bool {
    len == 0 || (hint matches Some(size) && len < size)
}

/// What the state and the bytes at hand call for.
pub open spec fn plan(model: ReadModel) -> Plan {
    match model.state {
        State::Framing(hint) => if starved(hint, model.bytes().len()) {
            Plan::Fill(fill_size(hint, model.bytes().len()))
        } else {
            Plan::Decode
        },
        State::Pausing => Plan::DecodeEof,
        State::Paused => Plan::Fill(RESERVE),
        State::Errored => Plan::Stop,
    }
}

/// The state, and the step, after the decoder returned `decoded` and left
/// `rest` bytes.
pub open spec fn decoded_step<T, E>(decoded: Result<Decoded<T>, E>, rest: nat) -> (
    State,
    NextStep<T, E>,
) {
    match decoded {
        Err(error) => (State::Errored, NextStep::Ready(Some(Err(error)))),
        Ok(Decoded::Frame(item)) => (State::Framing(None), NextStep::Ready(Some(Ok(item)))),
        Ok(Decoded::Insufficient) => (
            State::Framing(None),
            NextStep::Fill(fill_size(None, rest)),
        ),
        Ok(Decoded::InsufficientAtLeast(size)) => (
            State::Framing(Some(size)),
            NextStep::Fill(fill_size(Some(size), rest)),
        ),
    }
}

/// The state, and the step, after the decoder returned `ended` at the end of
/// the input.
pub open spec fn ended_step<T, E>(ended: Result<Decoded<T>, E>) -> (State, NextStep<T, E>) {
    match ended {
        Err(error) => (State::Errored, NextStep::Ready(Some(Err(error)))),
        Ok(Decoded::Frame(item)) => (State::Pausing, NextStep::Ready(Some(Ok(item)))),
        Ok(_) => (State::Paused, NextStep::Ready(None)),
    }
}

/// The state after a read that brought `count` bytes.
pub open spec fn filled_state(state: State, count: usize) -> State {
    match state {
        State::Framing(_) => if count == 0 {
            State::Pausing
        } else {
            state
        },
        _ => if count == 0 {
            State::Paused
        } else {
            State::Framing(None)
        },
    }
}

/// A read may be under way: these are the states in which one is asked for.
pub open spec fn reading(state: State) -> bool {
    state is Framing || state is Paused
}

/// What a step does where no read result is to be taken in: it follows the
/// plan, which asks the decoder once at most.
pub open spec fn follows_plan<C: Decoder>(
    pre: ReadModel,
    codec: C,
    post: ReadModel,
    codec_after: C,
    step: NextStep<C::Item, C::Error>,
) -> bool {
    match plan(pre) {
        Plan::Fill(room) => {
            &&& post == pre
            &&& codec_after == codec
            &&& step == NextStep::<C::Item, C::Error>::Fill(room)
        },
        Plan::Stop => {
            &&& post == (ReadModel { state: State::Paused, buffer: pre.buffer })
            &&& codec_after == codec
            &&& step == NextStep::<C::Item, C::Error>::Ready(None)
        },
        Plan::Decode => exists|decoded: Result<Decoded<C::Item>, C::Error>|
            {
                &&& #[trigger] C::decodes(codec, pre.buffer, codec_after, post.buffer, decoded)
                &&& (post.state, step) == decoded_step(decoded, post.bytes().len())
            },
        Plan::DecodeEof => exists|ended: Result<Decoded<C::Item>, C::Error>|
            {
                &&& #[trigger] ends(codec, pre.buffer, codec_after, post.buffer, ended)
                &&& (post.state, step) == ended_step(ended)
            },
    }
}

/// What a step of [`ReadState::next_with`] does.
pub open spec fn next_does<C: Decoder>(
    pre: ReadModel,
    codec: C,
    event: FillEvent,
    post: ReadModel,
    codec_after: C,
    step: NextStep<C::Item, C::Error>,
) -> bool {
    match event {
        FillEvent::Start => follows_plan(pre, codec, post, codec_after, step),
        FillEvent::Filled(buffer, Err(cause)) => {
            &&& post == (ReadModel { state: State::Errored, buffer })
            &&& codec_after == codec
            &&& step matches NextStep::Ready(Some(Err(error))) && converted(cause, error)
        },
        FillEvent::Filled(buffer, Ok(count)) => if pre.state is Paused && count == 0 {
            &&& post == (ReadModel { state: State::Paused, buffer })
            &&& codec_after == codec
            &&& step == NextStep::<C::Item, C::Error>::Ready(None)
        } else {
            follows_plan(
                ReadModel { state: filled_state(pre.state, count), buffer },
                codec,
                post,
                codec_after,
                step,
            )
        },
    }
}

/// What a step of [`ReadState::peek_data`] does.
pub open spec fn peek_does(
    pre: ReadModel,
    event: FillEvent,
    post: ReadModel,
    step: PeekStep,
) -> bool {
    match event {
        FillEvent::Start => {
            &&& post == pre
            &&& step == if pre.bytes().len() == 0 {
                PeekStep::Fill(RESERVE)
            } else {
                PeekStep::Done(Ok(()))
            }
        },
        FillEvent::Filled(buffer, Err(cause)) => {
            &&& post == (ReadModel { state: State::Errored, buffer })
            &&& step == PeekStep::Done(Err(cause))
        },
        FillEvent::Filled(buffer, Ok(count)) => {
            &&& post.buffer == buffer
            &&& post.state == if count == 0 {
                State::Paused
            } else {
                pre.state
            }
            &&& step == PeekStep::Done(Ok(()))
        },
    }
}

/// How many of the bytes in `buffer` a caller with room for `total` gets.
pub open spec fn share(buffer: BytesMut, total: usize) -> usize {
    if total < content(buffer).len() {
        total
    } else {
        content(buffer).len() as usize
    }
}

/// What a step of [`ReadState::read`] does for a caller with room for `total`
/// bytes.
pub open spec fn read_does(
    pre: ReadModel,
    total: usize,
    event: ReadEvent,
    post: ReadModel,
    step: ReadStep,
) -> bool {
    match event {
        ReadEvent::Start => if total == 0 {
            &&& post == pre
            &&& step == ReadStep::Done(Ok(0))
        } else if pre.bytes().len() > 0 {
            &&& post == pre
            &&& step == ReadStep::Copy(share(pre.buffer, total))
        } else {
            &&& post == pre
            &&& step == if total > INITIAL_CAPACITY {
                ReadStep::Direct
            } else {
                ReadStep::Fill(INITIAL_CAPACITY)
            }
        },
        ReadEvent::Filled(buffer, Err(cause)) => {
            &&& post == (ReadModel { state: State::Errored, buffer })
            &&& step == ReadStep::Done(Err(cause))
        },
        ReadEvent::Filled(buffer, Ok(count)) => if count == 0 {
            &&& post == (ReadModel { state: State::Pausing, buffer })
            &&& step == ReadStep::Done(Ok(0))
        } else {
            &&& post == (ReadModel { state: pre.state, buffer })
            &&& step == ReadStep::Copy(share(buffer, total))
        },
        ReadEvent::Direct(result) => {
            &&& post.buffer == pre.buffer
            &&& post.state == match result {
                Err(_) => State::Errored,
                Ok(count) => if count == 0 {
                    State::Pausing
                } else {
                    pre.state
                },
            }
            &&& step == ReadStep::Done(result)
        },
        ReadEvent::Copied => {
            let count = share(pre.buffer, total);
            &&& post.state == pre.state
            &&& post.bytes() == pre.bytes().skip(count as int)
            &&& room_falls_by(pre.buffer, post.buffer, count as nat)
            &&& step == ReadStep::Done(Ok(count))
        },
    }
}

/// What a step of [`ReadState::readv`] does, where `slot` is the room in the
/// first of the caller's memory areas, if there is one.
pub open spec fn readv_does(
    pre: ReadModel,
    slot: Option<usize>,
    event: ReadEvent,
    post: ReadModel,
    step: ReadStep,
) -> bool {
    match slot {
        None => post == pre && step == ReadStep::Done(Ok(0)),
        Some(total) => read_does(pre, total, event, post, step),
    }
}

/// `lease` is the buffer of `pre`, lent out to be read into behind what it holds:
/// at all the room that its memory has there, which is `additional` bytes at
/// least. More memory is taken only where that at hand is not enough. `post` is
/// left with an empty buffer.
pub open spec fn lends(
    pre: ReadModel,
    additional: usize,
    post: ReadModel,
    lease: Lease,
) -> bool {
    &&& content(lease.buffer) == pre.bytes()
    &&& lease.begin == pre.bytes().len()
    &&& lease.begin + additional <= lease.end <= isize::MAX
    &&& may_hold(lease.buffer, lease.end)
    &&& forall|capacity: usize| #[trigger]
        may_hold(lease.buffer, capacity) ==> lease.end == capacity
    &&& room_grows_to(pre.buffer, lease.buffer, pre.bytes().len() + additional)
    &&& post.state == pre.state
    &&& post.bytes() == Seq::<u8>::empty()
}

/// About to read frames, with an empty buffer that has room for `capacity` bytes
/// at least.
pub open spec fn fresh(model: ReadModel, capacity: usize) -> bool {
    &&& model.state == State::Framing(None)
    &&& model.bytes() == Seq::<u8>::empty()
    &&& forall|room: usize| #[trigger] may_hold(model.buffer, room) ==> capacity <= room
}

impl Default for ReadState {
    /// An empty buffer of the usual size, about to read frames.
    fn default() -> (read: Self)
        ensures
            fresh(read@, INITIAL_CAPACITY),
    {
        Self::with_capacity(INITIAL_CAPACITY)
    }
}

impl ReadState {
    /// An empty buffer with room for `capacity` bytes, about to read frames.
    pub fn with_capacity(capacity: usize) -> (read: Self)
        requires
            capacity <= isize::MAX,
        ensures
            fresh(read@, capacity),
    {
        ReadState { state: State::Framing(None), buffer: BytesMut::with_capacity(capacity) }
    }

    /// Takes in what the decoder returned, having left its rest in the buffer.
    pub fn on_decoded<T, E>(&mut self, decoded: Result<Decoded<T>, E>) -> (step: NextStep<T, E>)
        ensures
            final(self)@.buffer == old(self)@.buffer,
            (final(self)@.state, step) == decoded_step(decoded, old(self)@.bytes().len()),
    {
        match decoded {
            Err(error) => {
                self.state = State::Errored;
                NextStep::Ready(Some(Err(error)))
            },
            Ok(Decoded::Frame(item)) => {
                self.state = State::Framing(None);
                NextStep::Ready(Some(Ok(item)))
            },
            Ok(Decoded::Insufficient) => {
                self.state = State::Framing(None);
                NextStep::Fill(self.room_for(None))
            },
            Ok(Decoded::InsufficientAtLeast(size)) => {
                self.state = State::Framing(Some(size));
                NextStep::Fill(self.room_for(Some(size)))
            },
        }
    }

    /// Takes in what the decoder returned at the end of the input.
    pub fn on_ended<T, E>(&mut self, ended: Result<Decoded<T>, E>) -> (step: NextStep<T, E>)
        ensures
            final(self)@.buffer == old(self)@.buffer,
            (final(self)@.state, step) == ended_step(ended),
    {
        match ended {
            Err(error) => {
                self.state = State::Errored;
                NextStep::Ready(Some(Err(error)))
            },
            Ok(Decoded::Frame(item)) => {
                self.state = State::Pausing;
                NextStep::Ready(Some(Ok(item)))
            },
            _ => {
                self.state = State::Paused;
                NextStep::Ready(None)
            },
        }
    }

    fn room_for(&self, hint: Option<usize>) -> (room: usize)
        ensures
            room == fill_size(hint, self@.bytes().len()),
    {
        let len: usize = self.buffer.len();
        match hint {
            Some(size) => if size > len && size - len > RESERVE {
                size - len
            } else {
                RESERVE
            },
            None => RESERVE,
        }
    }

    /// Follows the plan, asking the decoder once at most.
    fn follow_plan<C: Decoder>(&mut self, codec: &mut C) -> (step: NextStep<C::Item, C::Error>)
        ensures
            follows_plan(old(self)@, *old(codec), final(self)@, *final(codec), step),
    {
        match self.state {
            State::Framing(hint) => {
                let len: usize = self.buffer.len();
                let hungry = match hint {
                    Some(size) => len < size,
                    None => false,
                };
                if hungry || len == 0 {
                    NextStep::Fill(self.room_for(hint))
                } else {
                    let decoded = codec.decode(&mut self.buffer);
                    let ghost outcome = decoded;
                    let step = self.on_decoded(decoded);
                    assert(C::decodes(
                        *old(codec),
                        old(self)@.buffer,
                        *codec,
                        self@.buffer,
                        outcome,
                    ));
                    step
                }
            },
            State::Pausing => {
                let ended = codec.decode_eof(&mut self.buffer);
                let ghost outcome = ended;
                let step = self.on_ended(ended);
                assert(ends(*old(codec), old(self)@.buffer, *codec, self@.buffer, outcome));
                step
            },
            State::Paused => NextStep::Fill(RESERVE),
            State::Errored => {
                self.state = State::Paused;
                NextStep::Ready(None)
            },
        }
    }

    /// Lends the buffer out to be read into, with room for `additional` bytes at
    /// least behind what it holds. The place to read into is never empty, so a
    /// read of no bytes means the end of the input.
    pub fn lend(&mut self, additional: usize) -> (lease: Lease)
        requires
            0 < additional,
            old(self)@.bytes().len() + additional <= isize::MAX,
        ensures
            lends(old(self)@, additional, final(self)@, lease),
    {
        let begin: usize = self.buffer.len();
        self.buffer.reserve(additional);
        let end: usize = begin + room_behind(&mut self.buffer);
        Lease { buffer: take(&mut self.buffer), begin, end }
    }

    /// One step towards having data at hand: waits for some where there is none.
    pub fn peek_data(&mut self, event: FillEvent) -> (step: PeekStep)
        ensures
            peek_does(old(self)@, event, final(self)@, step),
    {
        match event {
            FillEvent::Start => if self.buffer.is_empty() {
                PeekStep::Fill(RESERVE)
            } else {
                PeekStep::Done(Ok(()))
            },
            FillEvent::Filled(buffer, result) => {
                self.buffer = buffer;
                match result {
                    Err(cause) => {
                        self.state = State::Errored;
                        PeekStep::Done(Err(cause))
                    },
                    Ok(count) => {
                        if count == 0 {
                            self.state = State::Paused;
                        }
                        PeekStep::Done(Ok(()))
                    },
                }
            },
        }
    }

    fn share(&self, total: usize) -> (count: usize)
        ensures
            count == share(self@.buffer, total),
            count <= self@.bytes().len(),
    {
        let len: usize = self.buffer.len();
        if total < len {
            total
        } else {
            len
        }
    }

    /// The first `count` of the bytes not yet consumed, or all if there are fewer.
    pub fn front(&self, count: usize) -> (bytes: &[u8])
        ensures
            bytes@ == self@.bytes().take(share(self@.buffer, count) as int),
    {
        &bytes_of(&self.buffer)[0..self.share(count)]
    }

    /// One step of an unframed read by a caller with room for `total` bytes.
    /// Buffered bytes come first, and stay until they have been copied; a large
    /// read bypasses the buffer.
    pub fn read(&mut self, total: usize, event: ReadEvent) -> (step: ReadStep)
        ensures
            read_does(old(self)@, total, event, final(self)@, step),
    {
        match event {
            ReadEvent::Start => if total == 0 {
                ReadStep::Done(Ok(0))
            } else if !self.buffer.is_empty() {
                ReadStep::Copy(self.share(total))
            } else if total > INITIAL_CAPACITY {
                ReadStep::Direct
            } else {
                ReadStep::Fill(INITIAL_CAPACITY)
            },
            ReadEvent::Filled(buffer, result) => {
                self.buffer = buffer;
                match result {
                    Err(cause) => {
                        self.state = State::Errored;
                        ReadStep::Done(Err(cause))
                    },
                    Ok(count) => if count == 0 {
                        self.state = State::Pausing;
                        ReadStep::Done(Ok(0))
                    } else {
                        ReadStep::Copy(self.share(total))
                    },
                }
            },
            ReadEvent::Direct(result) => match result {
                Err(cause) => {
                    self.state = State::Errored;
                    ReadStep::Done(Err(cause))
                },
                Ok(count) => {
                    if count == 0 {
                        self.state = State::Pausing;
                    }
                    ReadStep::Done(Ok(count))
                },
            },
            ReadEvent::Copied => {
                let count: usize = self.share(total);
                advance(&mut self.buffer, count);
                ReadStep::Done(Ok(count))
            },
        }
    }

    /// One step of an unframed read into several memory areas. Only the first
    /// is used; without one nothing is read.
    pub fn readv(&mut self, slot: Option<usize>, event: ReadEvent) -> (step: ReadStep)
        ensures
            readv_does(old(self)@, slot, event, final(self)@, step),
    {
        match slot {
            None => ReadStep::Done(Ok(0)),
            Some(total) => self.read(total, event),
        }
    }

    /// The state of the stream of frames.
    pub fn state(&self) -> (state: State)
        ensures
            state == self@.state,
    {
        self.state
    }

    /// The buffer of bytes not yet consumed.
    pub fn buffer(&self) -> (buffer: &BytesMut)
        ensures
            *buffer == self@.buffer,
    {
        &self.buffer
    }

    /// The buffer of bytes not yet consumed.
    pub fn buffer_mut(&mut self) -> (buffer: &mut BytesMut)
        ensures
            *buffer == old(self)@.buffer,
            final(self)@ == (ReadModel { state: old(self)@.state, buffer: *final(buffer) }),
    {
        &mut self.buffer
    }

    /// The bytes not yet consumed.
    pub fn data_mut(&mut self) -> (data: &mut [u8])
        ensures
            data@ == old(self)@.bytes(),
            final(self)@.state == old(self)@.state,
            final(self)@.bytes() == final(data)@,
            same_room(old(self)@.buffer, final(self)@.buffer),
    {
        bytes_of_mut(&mut self.buffer)
    }

    /// One step towards the next frame.
    pub fn next_with<C: Decoder>(&mut self, codec: &mut C, event: FillEvent) -> (step: NextStep<
        C::Item,
        C::Error,
    >)
        requires
            event is Filled ==> reading(old(self)@.state),
        ensures
            next_does(old(self)@, *old(codec), event, final(self)@, *final(codec), step),
            step is Fill ==> reading(final(self)@.state),
    {
        if let FillEvent::Filled(buffer, result) = event {
            self.buffer = buffer;
            match result {
                Err(cause) => {
                    self.state = State::Errored;
                    return NextStep::Ready(Some(Err(convert(cause))));
                },
                Ok(count) => match self.state {
                    State::Framing(_) => if count == 0 {
                        self.state = State::Pausing;
                    },
                    _ => {
                        if count == 0 {
                            return NextStep::Ready(None);
                        }
                        self.state = State::Framing(None);
                    },
                },
            }
        }
        self.follow_plan(codec)
    }
}

} // verus!
