//! Codecs that read and write an I/O stream themselves, asynchronously.
use vstd::prelude::*;

verus! {

/// Encodes items straight onto an I/O stream.
pub trait AsyncEncoder<Item> {
    type Error: From<std::io::Error>;

    type EncodeFuture<'a>: std::future::Future<Output = Result<(), Self::Error>> where Self: 'a;

    fn encode<IO>(&mut self, item: Item, dst: IO) -> Self::EncodeFuture<'_>;
}

/// Decodes items straight from an I/O stream.
pub trait AsyncDecoder {
    type Item;

    type Error: From<std::io::Error>;

    type DecodeFuture<'a>: std::future::Future<
        Output = Result<Option<Self::Item>, Self::Error>,
    > where Self: 'a;

    fn decode<IO>(&mut self, src: IO) -> Self::DecodeFuture<'_>;
}

} // verus!
