//! Codecs that work on the bytes at hand.
use vstd::prelude::*;
use bytes::BytesMut;
use crate::buffer::content;

verus! {

/// What a [`Decoder`] made of the bytes it was shown.
#[derive(Debug)]
pub enum Decoded<T> {
    /// A whole frame was decoded.
    Frame(T),
    /// There is no whole frame yet.
    Insufficient,
    /// There is no whole frame yet, and there will be none before the buffer
    /// holds this many bytes.
    InsufficientAtLeast(usize),
}

/// `error` is what the conversion from I/O errors may make of `cause`.
pub open spec fn converted<E: From<std::io::Error>>(cause: std::io::Error, error: E) -> bool {
    call_ensures(<E as From<std::io::Error>>::from, (cause,), error)
}

/// `error` stems from some I/O error.
pub open spec fn stems_from_io<E: From<std::io::Error>>(error: E) -> bool {
    exists|cause: std::io::Error| #[trigger] converted(cause, error)
}

/// Converts an I/O error into the error type of a codec.
pub(crate) fn convert<E: From<std::io::Error>>(cause: std::io::Error) -> (error: E)
    ensures
        converted(cause, error),
        stems_from_io(error),
{
    let error = E::from(cause);
    assert(converted(cause, error));
    error
}

/// `std::io::Error::other` makes an error with the given message. Nothing is
/// claimed of it: the inside of an error is not looked at.
#[verifier::external_body]
fn other_error(message: &'static str) -> std::io::Error {
    std::io::Error::other(message)
}

/// Decodes frames from a buffer.
///
/// The two specification functions tell what outcomes the two methods may have;
/// a decoder that says nothing else may do anything.
pub trait Decoder: Sized {
    /// The frames.
    type Item;

    /// What can go wrong.
    type Error: From<std::io::Error>;

    /// [`Decoder::decode`] on `pre` with the buffer `src` may return `result` and
    /// leave `post` and, of the buffer, `rest`.
    open spec fn decodes(
        pre: Self,
        src: BytesMut,
        post: Self,
        rest: BytesMut,
        result: Result<Decoded<Self::Item>, Self::Error>,
    ) -> bool {
        true
    }

    /// [`Decoder::decode_eof`] of the decoder's own may do the same.
    open spec fn decodes_eof(
        pre: Self,
        src: BytesMut,
        post: Self,
        rest: BytesMut,
        result: Result<Decoded<Self::Item>, Self::Error>,
    ) -> bool {
        true
    }

    /// Decodes a frame from the front of the buffer and takes its bytes out, or
    /// tells that more bytes are needed.
    fn decode(&mut self, src: &mut BytesMut) -> (result: Result<Decoded<Self::Item>, Self::Error>)
        ensures
            Self::decodes(*old(self), *old(src), *final(self), *final(src), result),
    ;

    /// Decodes a frame after the input has ended, and is asked again until there
    /// is none. Unless the decoder has its own way, this is [`Decoder::decode`],
    /// but bytes that make no whole frame are an error.
    fn decode_eof(&mut self, src: &mut BytesMut) -> (result: Result<
        Decoded<Self::Item>,
        Self::Error,
    >)
        ensures
            Self::decodes_eof(*old(self), *old(src), *final(self), *final(src), result)
                || exists|decoded: Result<Decoded<Self::Item>, Self::Error>|
                {
                    &&& #[trigger] Self::decodes(
                        *old(self),
                        *old(src),
                        *final(self),
                        *final(src),
                        decoded,
                    )
                    &&& end_of(decoded, content(*final(src)), result)
                    &&& decoded is Ok && result is Err ==> stems_from_io(result->Err_0)
                },
    {
        let decoded = self.decode(src);
        let ghost outcome = decoded;
        let result = match decoded {
            Ok(Decoded::Frame(item)) => Ok(Decoded::Frame(item)),
            Ok(_) => if src.is_empty() {
                Ok(Decoded::Insufficient)
            } else {
                Err(convert(other_error("bytes remaining on stream")))
            },
            Err(error) => Err(error),
        };
        assert(end_of(outcome, content(*src), result));
        result
    }
}

/// What the end of the input makes of `decoded`, with `rest` in the buffer: a
/// frame or an error stands; else nothing may be left over.
pub open spec fn end_of<T, E>(
    decoded: Result<Decoded<T>, E>,
    rest: Seq<u8>,
    result: Result<Decoded<T>, E>,
) -> bool {
    match decoded {
        Ok(Decoded::Frame(_)) => result == decoded,
        Ok(_) => if rest.len() == 0 {
            result == Ok::<Decoded<T>, E>(Decoded::Insufficient)
        } else {
            result is Err
        },
        Err(_) => result == decoded,
    }
}

/// An outcome of the [`Decoder::decode_eof`] that decoders have unless they
/// bring their own.
pub open spec fn ends_by_default<C: Decoder>(
    pre: C,
    src: BytesMut,
    post: C,
    rest: BytesMut,
    result: Result<Decoded<C::Item>, C::Error>,
) -> bool {
    exists|decoded: Result<Decoded<C::Item>, C::Error>|
        {
            &&& #[trigger] C::decodes(pre, src, post, rest, decoded)
            &&& end_of(decoded, content(rest), result)
            &&& decoded is Ok && result is Err ==> stems_from_io(result->Err_0)
        }
}

/// An outcome of [`Decoder::decode_eof`].
pub open spec fn ends<C: Decoder>(
    pre: C,
    src: BytesMut,
    post: C,
    rest: BytesMut,
    result: Result<Decoded<C::Item>, C::Error>,
) -> bool {
    ||| C::decodes_eof(pre, src, post, rest, result)
    ||| ends_by_default(pre, src, post, rest, result)
}

/// Encodes items into a buffer.
///
/// The specification function tells what outcomes the method may have; an
/// encoder that says nothing else may do anything.
pub trait Encoder<Item>: Sized {
    /// What can go wrong.
    type Error: From<std::io::Error>;

    /// [`Encoder::encode`] of `item` on `pre` with the buffer `dst` may return
    /// `result` and leave `post` and, of the buffer, `out`.
    open spec fn encodes(
        pre: Self,
        item: Item,
        dst: BytesMut,
        post: Self,
        out: BytesMut,
        result: Result<(), Self::Error>,
    ) -> bool {
        true
    }

    /// Encodes an item to the end of the buffer.
    fn encode(&mut self, item: Item, dst: &mut BytesMut) -> (result: Result<(), Self::Error>)
        ensures
            Self::encodes(*old(self), item, *old(dst), *final(self), *final(dst), result),
    ;
}

} // verus!
