//! The byte buffer that frames are read from and written to.
//!
//! Buffers are [`bytes::BytesMut`]. What one holds is named [`content`]; the
//! declarations below say, over that name, what the methods in use do. How much
//! memory a buffer has is the allocator's choice, so it has no name: [`may_hold`]
//! says what [`BytesMut::capacity`] may return.
use vstd::prelude::*;
use bytes::BytesMut;

verus! {

/// [`bytes::BytesMut`], whose inside is not looked at.
#[verifier::external_type_specification]
#[verifier::external_body]
pub struct ExBytesMut(bytes::BytesMut);

/// [`std::io::Error`], whose inside is not looked at.
#[verifier::external_type_specification]
#[verifier::external_body]
pub struct ExIoError(std::io::Error);

/// The bytes that `buffer` holds, first to last.
pub uninterp spec fn content(buffer: BytesMut) -> Seq<u8>;

/// `capacity` is what [`BytesMut::capacity`] may return of `buffer`: the number
/// of bytes that its memory has room for.
#[verifier::inline]
pub open spec fn may_hold(buffer: BytesMut, capacity: usize) -> bool {
    call_ensures(BytesMut::capacity, (&buffer,), capacity)
}

/// The memory of `after` has room for as many bytes as that of `before`.
pub open spec fn same_room(before: BytesMut, after: BytesMut) -> bool {
    forall|capacity: usize|
        #![trigger may_hold(before, capacity)]
        #![trigger may_hold(after, capacity)]
        may_hold(before, capacity) == may_hold(after, capacity)
}

/// The memory of `after` has room for no fewer bytes than that of `before`, and
/// for as many where those were enough for `needed` bytes.
pub open spec fn room_grows_to(before: BytesMut, after: BytesMut, needed: int) -> bool {
    &&& forall|capacity: usize| #[trigger]
        may_hold(after, capacity) ==> exists|less: usize| #[trigger]
            may_hold(before, less) && less <= capacity
    &&& (exists|capacity: usize| #[trigger] may_hold(before, capacity) && needed <= capacity)
        ==> same_room(before, after)
}

/// The memory of `after` has room for `count` bytes less than that of `before`.
pub open spec fn room_falls_by(before: BytesMut, after: BytesMut, count: nat) -> bool {
    forall|capacity: usize| #[trigger]
        may_hold(after, capacity) ==> exists|more: usize| #[trigger]
            may_hold(before, more) && more == capacity + count
}

/// [`BytesMut::new`] makes a buffer that holds nothing.
pub assume_specification[ BytesMut::new ]() -> (buffer: BytesMut)
    ensures
        content(buffer) == Seq::<u8>::empty(),
;

/// [`BytesMut::with_capacity`] makes a buffer that holds nothing and has room
/// for `capacity` bytes at least. Memory for more than `isize::MAX` bytes cannot
/// be asked for.
pub assume_specification[ BytesMut::with_capacity ](capacity: usize) -> (buffer: BytesMut)
    requires
        capacity <= isize::MAX,
    ensures
        content(buffer) == Seq::<u8>::empty(),
        forall|room: usize| #[trigger] may_hold(buffer, room) ==> capacity <= room,
;

/// [`BytesMut::len`] is the number of bytes held.
pub assume_specification[ BytesMut::len ](buffer: &BytesMut) -> (len: usize)
    ensures
        len == content(*buffer).len(),
;

/// [`BytesMut::is_empty`] tells whether no byte is held.
pub assume_specification[ BytesMut::is_empty ](buffer: &BytesMut) -> (empty: bool)
    ensures
        empty == (content(*buffer).len() == 0),
;

/// [`BytesMut::capacity`] is the number of bytes that fit without another
/// allocation. The bytes held are among them; the number itself is the
/// allocator's choice.
pub assume_specification[ BytesMut::capacity ](buffer: &BytesMut) -> (capacity: usize)
    ensures
        content(*buffer).len() <= capacity,
;

/// [`BytesMut::extend_from_slice`] appends `extend`, in the memory at hand where
/// that has room enough, else in more of it. The whole must fit one allocation,
/// see [`BytesMut::reserve`].
pub assume_specification[ BytesMut::extend_from_slice ](buffer: &mut BytesMut, extend: &[u8])
    requires
        content(*old(buffer)).len() + extend@.len() <= isize::MAX,
    ensures
        content(*final(buffer)) == content(*old(buffer)) + extend@,
        room_grows_to(
            *old(buffer),
            *final(buffer),
            (content(*old(buffer)).len() + extend@.len()) as int,
        ),
;

/// [`BytesMut::reserve`] makes room for `additional` more bytes, in more memory
/// only where that at hand is not enough; no byte held changes. A request within
/// the limit of one allocation that the allocator still cannot serve, because of
/// what it keeps beside the content or by which it grows, counts as running out
/// of memory.
pub assume_specification[ BytesMut::reserve ](buffer: &mut BytesMut, additional: usize)
    requires
        content(*old(buffer)).len() + additional <= isize::MAX,
    ensures
        content(*final(buffer)) == content(*old(buffer)),
        forall|capacity: usize| #[trigger]
            may_hold(*final(buffer), capacity) ==> content(*old(buffer)).len() + additional
                <= capacity,
        room_grows_to(*old(buffer), *final(buffer), content(*old(buffer)).len() + additional),
;

/// [`BytesMut::clear`] drops all bytes and keeps the memory.
pub assume_specification[ BytesMut::clear ](buffer: &mut BytesMut)
    ensures
        content(*final(buffer)) == Seq::<u8>::empty(),
        same_room(*old(buffer), *final(buffer)),
;

/// `BytesMut::as_ref` shows the bytes held.
#[verifier::external_body]
pub(crate) fn bytes_of(buffer: &BytesMut) -> (bytes: &[u8])
    ensures
        bytes@ == content(*buffer),
{
    buffer.as_ref()
}

/// `BytesMut::as_mut` lends out the bytes held; the buffer keeps what is made
/// of them, in the same memory.
#[verifier::external_body]
pub(crate) fn bytes_of_mut(buffer: &mut BytesMut) -> (bytes: &mut [u8])
    ensures
        bytes@ == content(*old(buffer)),
        content(*final(buffer)) == final(bytes)@,
        same_room(*old(buffer), *final(buffer)),
{
    buffer.as_mut()
}

/// `Buf::advance` drops the first `count` bytes, of which there must be so many,
/// and with them their memory.
#[verifier::external_body]
pub(crate) fn advance(buffer: &mut BytesMut, count: usize)
    requires
        count <= content(*old(buffer)).len(),
    ensures
        content(*final(buffer)) == content(*old(buffer)).skip(count as int),
        room_falls_by(*old(buffer), *final(buffer), count as nat),
{
    bytes::Buf::advance(buffer, count)
}

/// `BufMut::chunk_mut` lends out the memory behind the content, where there must
/// be some; its length is all the room there is. Content and room are one
/// allocation, and none is larger than `isize::MAX` bytes.
#[verifier::external_body]
pub(crate) fn room_behind(buffer: &mut BytesMut) -> (room: usize)
    requires
        forall|capacity: usize| #[trigger]
            may_hold(*old(buffer), capacity) ==> content(*old(buffer)).len() < capacity,
    ensures
        *final(buffer) == *old(buffer),
        content(*old(buffer)).len() + room <= isize::MAX,
        may_hold(*final(buffer), (content(*old(buffer)).len() + room) as usize),
        forall|capacity: usize| #[trigger]
            may_hold(*final(buffer), capacity) ==> capacity == content(*old(buffer)).len() + room,
{
    bytes::BufMut::chunk_mut(buffer).len()
}

/// Moves the buffer out of `buffer`, where one that holds nothing is left.
pub(crate) fn take(buffer: &mut BytesMut) -> (taken: BytesMut)
    ensures
        taken == *old(buffer),
        content(*final(buffer)) == Seq::<u8>::empty(),
{
    let mut taken = BytesMut::new();
    std::mem::swap(&mut taken, buffer);
    taken
}

} // verus!
