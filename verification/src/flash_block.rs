//! The on-flash format of a block: a header, a serialized payload and a CRC.
//!
//! ```text
//! offset 0   magic "BLKS" (u32, little-endian)
//! offset 4   hash of the stored type's name (u32, little-endian)
//! offset 8   payload length (u16, little-endian)
//! offset 10  payload
//! then       CRC-32 of everything before it (u32, little-endian)
//! then       0xFF up to the end of the erase block
//! ```
//!
//! The payload is produced and consumed by the serializer around the library;
//! here the block is framed, checked and unframed.

use vstd::prelude::*;

use crate::error::Error;

verus! {

/// Size of one erase block of the Pico's flash.
pub const ERASE_SIZE: usize = 4096;

/// Internal flash size of the Pico 1 (2 MB).
pub const INTERNAL_FLASH_SIZE: usize = 2 * 1024 * 1024;

/// Marks a block that holds data: "BLKS".
pub const MAGIC: u32 = 0x424C_4B53;

/// Magic, type hash and payload length.
pub const HEADER_SIZE: usize = 10;

/// Size of the trailing CRC-32.
pub const CRC_SIZE: usize = 4;

/// Largest payload that fits in one block.
pub const MAX_PAYLOAD_SIZE: usize = 4082;

/// Number of blocks in the internal flash.
pub const TOTAL_BLOCKS: u32 = 512;

/// FNV-1a prime.
pub const FNV_PRIME: u32 = 16_777_619;

/// FNV-1a offset basis.
pub const FNV_OFFSET: u32 = 2_166_136_261;

/// One bit of the reflected CRC-32 (IEEE) shift register, polynomial `0xEDB88320`.
pub open spec fn crc32_bit(register: u32) -> u32 {
    if register & 1 == 1 {
        (register >> 1u32) ^ 0xEDB8_8320u32
    } else {
        register >> 1u32
    }
}

/// The shift register after taking in `byte`, low bit first.
pub open spec fn crc32_byte(register: u32, byte: u8) -> u32 {
    crc32_bit(
        crc32_bit(
            crc32_bit(crc32_bit(crc32_bit(crc32_bit(crc32_bit(crc32_bit(register ^ (byte as u32))))))),
        ),
    )
}

/// The shift register after taking in `data`, from all ones.
pub open spec fn crc32_register(data: Seq<u8>) -> u32
    decreases data.len(),
{
    if data.len() == 0 {
        0xFFFF_FFFFu32
    } else {
        crc32_byte(crc32_register(data.drop_last()), data.last())
    }
}

/// The CRC-32 (IEEE, as in zlib and PNG) of `data`: the register inverted.
pub open spec fn crc32(data: Seq<u8>) -> u32 {
    crc32_register(data) ^ 0xFFFF_FFFFu32
}

/// CRC-32 of `data`.
///
/// Calls `crc32fast::hash` (a `Hasher` fed the whole slice, then finalized), which
/// computes the standard CRC-32 (IEEE) stated by `crc32`.
#[verifier::external_body]
fn compute_crc(data: &[u8]) -> (crc: u32)
    ensures
        crc == crc32(data@),
{
    crc32fast::hash(data)
}

/// The four little-endian bytes of `x`.
pub open spec fn le_u32(x: u32) -> Seq<u8> {
    seq![(x & 0xff) as u8, ((x >> 8) & 0xff) as u8, ((x >> 16) & 0xff) as u8, ((x >> 24) & 0xff) as u8]
}

/// The two little-endian bytes of `x`.
pub open spec fn le_u16(x: u16) -> Seq<u8> {
    seq![(x & 0xff) as u8, ((x >> 8) & 0xff) as u8]
}

/// The little-endian `u32` at `off`.
pub open spec fn read_u32(s: Seq<u8>, off: int) -> u32 {
    (s[off] as u32) | (s[off + 1] as u32) << 8 | (s[off + 2] as u32) << 16 | (s[off + 3] as u32)
        << 24
}

/// The little-endian `u16` at `off`.
pub open spec fn read_u16(s: Seq<u8>, off: int) -> u16 {
    (s[off] as u16) | (s[off + 1] as u16) << 8
}

/// FNV-1a hash of a byte string.
pub open spec fn fnv1a(s: Seq<u8>) -> u32
    decreases s.len(),
{
    if s.len() == 0 {
        FNV_OFFSET
    } else {
        vstd::wrapping::u32_specs::wrapping_mul(fnv1a(s.drop_last()) ^ (s.last() as u32), FNV_PRIME)
    }
}

/// Header and payload: everything the CRC covers.
pub open spec fn block_body(type_hash: u32, payload: Seq<u8>) -> Seq<u8> {
    le_u32(MAGIC) + le_u32(type_hash) + le_u16(payload.len() as u16) + payload
}

/// The full erase block that stores `payload` under `type_hash`.
pub open spec fn block_image(type_hash: u32, payload: Seq<u8>) -> Seq<u8> {
    let body = block_body(type_hash, payload);
    body + le_u32(crc32(body)) + Seq::new(
        (ERASE_SIZE - body.len() - CRC_SIZE) as nat,
        |i: int| 0xFFu8,
    )
}

/// What reading a block whose stored bytes are `image` gives for a type whose name
/// hashes to `type_hash`: no data (`Ok(None)`) when the magic or the type differ, an
/// error when the length or the CRC is wrong, the payload otherwise.
pub open spec fn read_block(image: Seq<u8>, type_hash: u32) -> Result<Option<Seq<u8>>, Error> {
    if read_u32(image, 0) != MAGIC {
        Ok(None)
    } else if read_u32(image, 4) != type_hash {
        Ok(None)
    } else {
        let len = read_u16(image, 8) as int;
        if len > MAX_PAYLOAD_SIZE {
            Err(Error::StorageCorrupted)
        } else if read_u32(image, HEADER_SIZE + len) != crc32(image.subrange(0, HEADER_SIZE + len)) {
            Err(Error::StorageCorrupted)
        } else {
            Ok(Some(image.subrange(HEADER_SIZE as int, HEADER_SIZE + len)))
        }
    }
}

/// Offset of block `block_id`; blocks are counted down from the end of the flash.
pub open spec fn block_offset_spec(capacity: int, block_id: int) -> int {
    capacity - (block_id + 1) * ERASE_SIZE
}

fn push_u32_le(out: &mut Vec<u8>, x: u32)
    ensures
        final(out)@ == old(out)@ + le_u32(x),
{
    out.push((x & 0xff) as u8);
    out.push(((x >> 8) & 0xff) as u8);
    out.push(((x >> 16) & 0xff) as u8);
    out.push(((x >> 24) & 0xff) as u8);
    assert(out@ =~= old(out)@ + le_u32(x));
}

fn push_u16_le(out: &mut Vec<u8>, x: u16)
    ensures
        final(out)@ == old(out)@ + le_u16(x),
{
    out.push((x & 0xff) as u8);
    out.push(((x >> 8) & 0xff) as u8);
    assert(out@ =~= old(out)@ + le_u16(x));
}

fn read_u32_le(s: &[u8], off: usize) -> (x: u32)
    requires
        off + 4 <= s@.len(),
    ensures
        x == read_u32(s@, off as int),
{
    (s[off] as u32) | (s[off + 1] as u32) << 8 | (s[off + 2] as u32) << 16 | (s[off + 3] as u32)
        << 24
}

fn read_u16_le(s: &[u8], off: usize) -> (x: u16)
    requires
        off + 2 <= s@.len(),
    ensures
        x == read_u16(s@, off as int),
{
    (s[off] as u16) | (s[off + 1] as u16) << 8
}

/// FNV-1a hash of a type name.
pub fn type_hash_of_name(name: &[u8]) -> (hash: u32)
    ensures
        hash == fnv1a(name@),
{
    let mut hash = FNV_OFFSET;
    let mut i: usize = 0;
    while i < name.len()
        invariant
            0 <= i <= name@.len(),
            hash == fnv1a(name@.subrange(0, i as int)),
        decreases name@.len() - i,
    {
        proof {
            let next = name@.subrange(0, i + 1);
            assert(next.drop_last() =~= name@.subrange(0, i as int));
            assert(next.last() == name@[i as int]);
        }
        hash ^= name[i] as u32;
        hash = hash.wrapping_mul(FNV_PRIME);
        i += 1;
    }
    assert(name@.subrange(0, name@.len() as int) =~= name@);
    hash
}

/// Offset, from the start of flash, of block `block_id`.
pub fn block_offset(capacity: u32, block_id: u32) -> (offset: u32)
    requires
        (block_id + 1) * ERASE_SIZE <= capacity,
    ensures
        offset == block_offset_spec(capacity as int, block_id as int),
{
    capacity - (block_id + 1) * ERASE_SIZE as u32
}

/// Frames `payload` as a full erase block stored under `type_hash`.
///
/// Fails with [`Error::FormatError`] when the payload does not fit in a block.
pub fn encode_block(type_hash: u32, payload: &[u8]) -> (block: Result<Vec<u8>, Error>)
    ensures
        payload@.len() <= MAX_PAYLOAD_SIZE <==> block is Ok,
        block matches Ok(image) ==> image@ == block_image(type_hash, payload@),
        block matches Err(e) ==> e == Error::FormatError,
{
    if payload.len() > MAX_PAYLOAD_SIZE {
        return Err(Error::FormatError);
    }
    let mut buffer: Vec<u8> = Vec::new();
    push_u32_le(&mut buffer, MAGIC);
    push_u32_le(&mut buffer, type_hash);
    push_u16_le(&mut buffer, payload.len() as u16);
    let mut i: usize = 0;
    while i < payload.len()
        invariant
            0 <= i <= payload@.len(),
            payload@.len() <= MAX_PAYLOAD_SIZE,
            buffer@ == le_u32(MAGIC) + le_u32(type_hash) + le_u16(payload@.len() as u16)
                + payload@.subrange(0, i as int),
        decreases payload@.len() - i,
    {
        buffer.push(payload[i]);
        proof {
            assert(payload@.subrange(0, i + 1) =~= payload@.subrange(0, i as int).push(
                payload@[i as int],
            ));
        }
        i += 1;
    }
    assert(payload@.subrange(0, payload@.len() as int) =~= payload@);
    let ghost body = buffer@;
    let crc = compute_crc(buffer.as_slice());
    push_u32_le(&mut buffer, crc);
    let ghost filled_from = buffer@.len();
    while buffer.len() < ERASE_SIZE
        invariant
            filled_from == body.len() + CRC_SIZE,
            filled_from <= buffer@.len() <= ERASE_SIZE,
            buffer@.subrange(0, filled_from as int) == body + le_u32(crc32(body)),
            forall|k: int| filled_from <= k < buffer@.len() ==> #[trigger] buffer@[k] == 0xFFu8,
        decreases ERASE_SIZE - buffer@.len(),
    {
        let ghost before = buffer@;
        buffer.push(0xFF);
        assert(buffer@.subrange(0, filled_from as int) =~= before.subrange(0, filled_from as int));
    }
    proof {
        let expected = block_image(type_hash, payload@);
        assert(buffer@.len() == expected.len());
        assert forall|k: int| 0 <= k < expected.len() implies #[trigger] buffer@[k] == expected[k] by {
            if k < filled_from {
                assert(buffer@[k] == buffer@.subrange(0, filled_from as int)[k]);
            }
        }
        assert(buffer@ =~= expected);
    }
    Ok(buffer)
}

/// Checks a stored erase block and returns its payload.
///
/// `Ok(None)` when the block holds no data or data of another type,
/// [`Error::StorageCorrupted`] when its length or CRC is wrong.
pub fn decode_block(image: &[u8], type_hash: u32) -> (payload: Result<Option<Vec<u8>>, Error>)
    requires
        image@.len() == ERASE_SIZE,
    ensures
        match (payload, read_block(image@, type_hash)) {
            (Ok(Some(v)), Ok(Some(p))) => v@ == p,
            (Ok(None), Ok(None)) => true,
            (Err(e1), Err(e2)) => e1 == e2,
            _ => false,
        },
{
    let magic = read_u32_le(image, 0);
    if magic != MAGIC {
        return Ok(None);
    }
    let stored_type_hash = read_u32_le(image, 4);
    if stored_type_hash != type_hash {
        return Ok(None);
    }
    let payload_len = read_u16_le(image, 8) as usize;
    if payload_len > MAX_PAYLOAD_SIZE {
        return Err(Error::StorageCorrupted);
    }
    let crc_offset = HEADER_SIZE + payload_len;
    let stored_crc = read_u32_le(image, crc_offset);
    let computed_crc = compute_crc(&image[0..crc_offset]);
    if stored_crc != computed_crc {
        return Err(Error::StorageCorrupted);
    }
    let body = &image[HEADER_SIZE..crc_offset];
    let mut out: Vec<u8> = Vec::new();
    let mut i: usize = 0;
    while i < body.len()
        invariant
            0 <= i <= body@.len(),
            out@ == body@.subrange(0, i as int),
        decreases body@.len() - i,
    {
        out.push(body[i]);
        assert(body@.subrange(0, i + 1) =~= body@.subrange(0, i as int).push(body@[i as int]));
        i += 1;
    }
    assert(body@.subrange(0, body@.len() as int) =~= body@);
    Ok(Some(out))
}

proof fn lemma_le_u32_roundtrip(x: u32, s: Seq<u8>, off: int)
    requires
        0 <= off,
        off + 4 <= s.len(),
        s.subrange(off, off + 4) == le_u32(x),
    ensures
        read_u32(s, off) == x,
{
    assert(s[off] == le_u32(x)[0]);
    assert(s[off + 1] == le_u32(x)[1]);
    assert(s[off + 2] == le_u32(x)[2]);
    assert(s[off + 3] == le_u32(x)[3]);
    assert(((x & 0xff) as u8 as u32) | (((x >> 8) & 0xff) as u8 as u32) << 8 | (((x >> 16)
        & 0xff) as u8 as u32) << 16 | (((x >> 24) & 0xff) as u8 as u32) << 24 == x) by (bit_vector);
}

proof fn lemma_le_u16_roundtrip(x: u16, s: Seq<u8>, off: int)
    requires
        0 <= off,
        off + 2 <= s.len(),
        s.subrange(off, off + 2) == le_u16(x),
    ensures
        read_u16(s, off) == x,
{
    assert(s[off] == le_u16(x)[0]);
    assert(s[off + 1] == le_u16(x)[1]);
    assert(((x & 0xff) as u8 as u16) | (((x >> 8) & 0xff) as u8 as u16) << 8 == x) by (bit_vector);
}

/// Reading a block gives back what was written to it: for the type it was written for,
/// the payload; for any other type, no data.
pub proof fn read_block_after_encode(type_hash: u32, payload: Seq<u8>, read_type_hash: u32)
    requires
        payload.len() <= MAX_PAYLOAD_SIZE,
    ensures
        read_block(block_image(type_hash, payload), read_type_hash) == if read_type_hash
            == type_hash {
            Ok::<Option<Seq<u8>>, Error>(Some(payload))
        } else {
            Ok::<Option<Seq<u8>>, Error>(None)
        },
{
    let body = block_body(type_hash, payload);
    let image = block_image(type_hash, payload);
    let len = payload.len() as int;
    assert(image.subrange(0, 4) =~= le_u32(MAGIC));
    lemma_le_u32_roundtrip(MAGIC, image, 0);
    assert(image.subrange(4, 8) =~= le_u32(type_hash));
    lemma_le_u32_roundtrip(type_hash, image, 4);
    assert(image.subrange(8, 10) =~= le_u16(len as u16));
    lemma_le_u16_roundtrip(len as u16, image, 8);
    assert(image.subrange(HEADER_SIZE + len, HEADER_SIZE + len + 4) =~= le_u32(crc32(body)));
    lemma_le_u32_roundtrip(crc32(body), image, HEADER_SIZE + len);
    assert(image.subrange(0, HEADER_SIZE + len) =~= body);
    assert(image.subrange(HEADER_SIZE as int, HEADER_SIZE + len) =~= payload);
}

/// Reserves `count` consecutive blocks when the first `next_block` are already taken.
/// Returns the allocation counter after the call and the first reserved block. The
/// counter advances with wrap-around; when the end of the range overflows it is left
/// advanced, when the range runs past the last block it is rolled back, and both are
/// `IndexOutOfBounds`.
pub fn reserve_blocks(next_block: u32, count: u32) -> (outcome: (u32, Result<u32, Error>))
    ensures
        outcome == reserve_blocks_spec(next_block, count),
{
    let advanced = next_block.wrapping_add(count);
    match next_block.checked_add(count) {
        None => (advanced, Err(Error::IndexOutOfBounds)),
        Some(end) => {
            if end > TOTAL_BLOCKS {
                (advanced.wrapping_sub(count), Err(Error::IndexOutOfBounds))
            } else {
                (advanced, Ok(next_block))
            }
        },
    }
}

/// Flash-backed arrays of `N` blocks: a namespace for reserving them.
pub struct FlashArray<const N: usize>;

impl<const N: usize> FlashArray<N> {
    /// Reserves `N` consecutive blocks when the first `next_block` are taken: the counter
    /// after the call, and the ids of the reserved blocks (see [`reserve_blocks`]).
    pub fn reserve(next_block: u32) -> (outcome: (u32, Result<[u32; N], Error>))
        requires
            N <= u32::MAX,
        ensures
            outcome.0 == reserve_blocks_spec(next_block, N as u32).0,
            outcome.1 is Ok <==> reserve_blocks_spec(next_block, N as u32).1 is Ok,
            outcome.1 matches Err(e) ==> e == Error::IndexOutOfBounds,
            outcome.1 matches Ok(ids) ==> forall|i: int| 0 <= i < N ==> #[trigger] ids@[i] == next_block + i,
    {
        let (counter, start) = reserve_blocks(next_block, N as u32);
        match start {
            Ok(first) => {
                let mut ids = [0u32; N];
                let mut i: usize = 0;
                while i < N
                    invariant
                        i <= N,
                        N <= u32::MAX,
                        first == next_block,
                        next_block + N <= TOTAL_BLOCKS,
                        ids@.len() == N,
                        forall|k: int| 0 <= k < i ==> #[trigger] ids@[k] == next_block + k,
                    decreases N - i,
                {
                    ids[i] = first + i as u32;
                    i += 1;
                }
                (counter, Ok(ids))
            },
            Err(e) => (counter, Err(e)),
        }
    }
}

/// The outcome of [`reserve_blocks`].
pub open spec fn reserve_blocks_spec(next_block: u32, count: u32) -> (u32, Result<u32, Error>) {
    if next_block + count > u32::MAX {
        ((next_block + count - 0x1_0000_0000) as u32, Err(Error::IndexOutOfBounds))
    } else if next_block + count > TOTAL_BLOCKS {
        (next_block, Err(Error::IndexOutOfBounds))
    } else {
        ((next_block + count) as u32, Ok(next_block))
    }
}

/// Reservations never overlap: after one succeeds, the next one starts where it ended, and
/// a failed one leaves the counter where it was unless the count itself overflowed.
pub proof fn reservations_are_disjoint(next_block: u32, first: u32, second: u32)
    requires
        reserve_blocks_spec(next_block, first).1 is Ok,
        reserve_blocks_spec(reserve_blocks_spec(next_block, first).0, second).1 is Ok,
    ensures
        reserve_blocks_spec(reserve_blocks_spec(next_block, first).0, second).1 == Ok::<u32, Error>(
            (next_block + first) as u32,
        ),
        next_block + first + second <= TOTAL_BLOCKS,
{
}

} // verus!
