# monoio_codec

Frames over I/O streams, with the framing verified by Verus.

- `Framed`, `FramedRead` and `FramedWrite` put a codec between an I/O stream and
  its user. The same streams can be read and written without framing, and the two
  ways can be mixed.
- `Decoder` and `Encoder` are codecs on the bytes at hand; `AsyncDecoder` and
  `AsyncEncoder` work on the stream itself.

`src/` is the library: the states, the buffers and every decision. It performs no
input or output. An operation is a sequence of steps: a step takes what happened
since the last one and returns what is to be done next, or the outcome. `app/` is
the front end for monoio, which performs what the steps ask for.

| module | |
| --- | --- |
| `buffer` | what is relied on of `bytes::BytesMut` |
| `sync_codec`, `async_codec` | the codec traits |
| `read`, `write` | the two halves of a stream, step by step |
| `inner`, `framed` | the framed streams |
| `read_laws`, `input_laws`, `write_laws`, `round_trip` | what holds of whole operations, and of many |
