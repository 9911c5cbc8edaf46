//! Frames over I/O streams.
//!
//! [`Framed`], [`FramedRead`] and [`FramedWrite`] put a codec between an I/O
//! stream and its user: a [`Decoder`] makes frames of the bytes that are read, an
//! [`Encoder`] makes bytes of the items that are sent. The same streams can be
//! read and written without framing, and both ways can be mixed. Codecs that
//! work on the stream itself are [`AsyncEncoder`]s and [`AsyncDecoder`]s.
//!
//! This library decides and buffers; it performs no input or output. Every
//! operation is a sequence of steps, each a function of the state and of what
//! happened since the last one, see [`read`] and [`write`]. What holds of whole
//! operations and of many of them is proved in [`read_laws`], [`input_laws`],
//! [`write_laws`] and [`round_trip`], what holds of their steps in [`step_laws`] and
//! [`output_laws`], and that the framed streams are made of these in
//! [`framed_laws`].
pub mod async_codec;
pub mod buffer;
pub mod framed;
pub mod framed_laws;
pub mod inner;
pub mod input_laws;
pub mod output_laws;
pub mod read;
pub mod read_laws;
pub mod round_trip;
pub mod step_laws;
pub mod sync_codec;
pub mod write;
pub mod write_laws;

pub use async_codec::{AsyncDecoder, AsyncEncoder};
pub use framed::StreamWithCodec as NextWithCodec;
pub use framed::{Framed, FramedRead, FramedWrite, SinkWithCodec, StreamWithCodec};
pub use inner::FramedInner;
pub use sync_codec::{Decoded, Decoder, Encoder};
