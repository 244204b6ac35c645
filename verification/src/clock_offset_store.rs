//! The stored UTC offset of the clock: its valid range, and how it is framed in a flash
//! block (a postcard-encoded `i32` in the block format of [`crate::flash_block`]).

use vstd::prelude::*;

use crate::error::Error;
use crate::flash_block::{decode_block, encode_block, read_block, block_image, ERASE_SIZE};

verus! {

/// Smallest offset stored, in minutes (UTC−12).
pub const MIN_OFFSET_MINUTES: i32 = -720;

/// Largest offset stored, in minutes (UTC+14).
pub const MAX_OFFSET_MINUTES: i32 = 840;

/// An `i32` mapped onto `u32` by zig-zag: 0, -1, 1, -2, ... become 0, 1, 2, 3, ...
pub open spec fn zigzag(value: i32) -> nat {
    if value >= 0 {
        (2 * value) as nat
    } else {
        (-2 * value - 1) as nat
    }
}

/// The varint of `x`: seven bits per byte, least significant first, the top bit set on
/// every byte but the last.
pub open spec fn varint(x: nat) -> Seq<u8>
    decreases x,
{
    if x < 128 {
        seq![x as u8]
    } else {
        seq![(x % 128 + 128) as u8] + varint(x / 128)
    }
}

/// The postcard encoding of an `i32`: the varint of its zig-zag value.
pub open spec fn postcard_i32(value: i32) -> Seq<u8> {
    varint(zigzag(value))
}

/// The `i32` that postcard decodes from `bytes`, if it decodes one.
pub uninterp spec fn postcard_i32_from(bytes: Seq<u8>) -> Option<i32>;

/// A varint of a 32-bit value takes at most five bytes.
proof fn lemma_varint_len(x: nat)
    requires
        x < 0x1_0000_0000,
    ensures
        varint(x).len() <= 5,
{
    let x1 = x / 128;
    let x2 = x1 / 128;
    let x3 = x2 / 128;
    let x4 = x3 / 128;
    assert(x4 < 128);
    assert(varint(x4).len() == 1);
    assert(varint(x3).len() <= 2);
    assert(varint(x2).len() <= 3);
    assert(varint(x1).len() <= 4);
    assert(varint(x).len() <= 5);
}

/// The encoding of an offset takes at most five bytes.
proof fn lemma_postcard_i32_len(value: i32)
    ensures
        postcard_i32(value).len() <= 5,
{
    lemma_varint_len(zigzag(value));
}

/// Encodes `value` with postcard.
///
/// Calls `postcard::to_allocvec`, whose growing `Vec` never runs out of room, so the
/// encoding of an `i32` always succeeds; the bytes are its zig-zag varint.
#[verifier::external_body]
fn encode_i32(value: i32) -> (bytes: Option<Vec<u8>>)
    ensures
        bytes is Some,
        bytes matches Some(encoded) ==> encoded@ == postcard_i32(value),
{
    postcard::to_allocvec(&value).ok()
}

/// Decodes an `i32` with postcard.
///
/// Calls `postcard::from_bytes::<i32>` and drops its error: the result is a function of
/// the bytes, named `postcard_i32_from`, and the encoding of a value decodes to that value.
#[verifier::external_body]
fn decode_i32(bytes: &[u8]) -> (value: Option<i32>)
    ensures
        value == postcard_i32_from(bytes@),
        forall|v: i32| #[trigger] postcard_i32(v) == bytes@ ==> value == Some(v),
{
    postcard::from_bytes::<i32>(bytes).ok()
}

/// The offset can be stored: between UTC−12 and UTC+14.
pub open spec fn offset_storable(offset_minutes: i32) -> bool {
    MIN_OFFSET_MINUTES <= offset_minutes <= MAX_OFFSET_MINUTES
}

/// The block image that stores `offset_minutes` under `type_hash`: the block framing its
/// postcard encoding. Offsets outside UTC−12 to UTC+14 are refused with
/// [`Error::FormatError`].
pub fn encode_offset(offset_minutes: i32, type_hash: u32) -> (image: Result<Vec<u8>, Error>)
    ensures
        offset_storable(offset_minutes) <==> image is Ok,
        image matches Ok(bytes) ==> bytes@ == block_image(type_hash, postcard_i32(offset_minutes)),
        image matches Err(e) ==> e == Error::FormatError,
{
    if offset_minutes < MIN_OFFSET_MINUTES || offset_minutes > MAX_OFFSET_MINUTES {
        return Err(Error::FormatError);
    }
    proof {
        lemma_postcard_i32_len(offset_minutes);
    }
    match encode_i32(offset_minutes) {
        Some(payload) => encode_block(type_hash, &payload),
        None => Err(Error::FormatError),
    }
}

/// The offset stored in a block image under `type_hash`: `None` when the block holds no
/// data of this type, [`Error::StorageCorrupted`] when its framing or checksum is broken
/// or its payload is not an encoded `i32`. An image that [`encode_offset`] made for `v`
/// gives back `v`.
pub fn decode_offset(image: &[u8], type_hash: u32) -> (offset: Result<Option<i32>, Error>)
    requires
        image@.len() == ERASE_SIZE,
    ensures
        match read_block(image@, type_hash) {
            Ok(Some(payload)) => match postcard_i32_from(payload) {
                Some(v) => offset == Ok::<Option<i32>, Error>(Some(v)),
                None => offset == Err::<Option<i32>, Error>(Error::StorageCorrupted),
            },
            Ok(None) => offset == Ok::<Option<i32>, Error>(None),
            Err(e) => offset == Err::<Option<i32>, Error>(e),
        },
        forall|v: i32|
            image@ == block_image(type_hash, #[trigger] postcard_i32(v)) ==> offset == Ok::<
                Option<i32>,
                Error,
            >(Some(v)),
{
    let offset = match decode_block(image, type_hash) {
        Ok(Some(payload)) => {
            let decoded = decode_i32(&payload);
            proof {
                assert forall|v: i32|
                    image@ == block_image(type_hash, #[trigger] postcard_i32(v)) implies decoded == Some(
                    v,
                ) by {
                    lemma_postcard_i32_len(v);
                    crate::flash_block::read_block_after_encode(type_hash, postcard_i32(v), type_hash);
                }
            }
            match decoded {
                Some(value) => Ok(Some(value)),
                None => Err(Error::StorageCorrupted),
            }
        },
        Ok(None) => Ok(None),
        Err(e) => Err(e),
    };
    proof {
        assert forall|v: i32|
            image@ == block_image(type_hash, #[trigger] postcard_i32(v)) implies offset == Ok::<
            Option<i32>,
            Error,
        >(Some(v)) by {
            lemma_postcard_i32_len(v);
            crate::flash_block::read_block_after_encode(type_hash, postcard_i32(v), type_hash);
        }
    }
    offset
}

/// A stored offset reads back as stored: reading the block that [`encode_offset`] made
/// for a storable offset gives the payload it framed (and [`decode_offset`] turns that
/// payload back into the offset).
pub proof fn stored_offset_reads_back(offset_minutes: i32, type_hash: u32)
    requires
        offset_storable(offset_minutes),
    ensures
        read_block(block_image(type_hash, postcard_i32(offset_minutes)), type_hash) == Ok::<
            Option<Seq<u8>>,
            Error,
        >(Some(postcard_i32(offset_minutes))),
{
    lemma_postcard_i32_len(offset_minutes);
    crate::flash_block::read_block_after_encode(type_hash, postcard_i32(offset_minutes), type_hash);
}

} // verus!
