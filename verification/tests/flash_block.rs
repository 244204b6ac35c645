use device_kit::clock_offset_store::{decode_offset, encode_offset, MAX_OFFSET_MINUTES, MIN_OFFSET_MINUTES};
use device_kit::error::Error;
use device_kit::flash_block::{
    block_offset, decode_block, encode_block, reserve_blocks, type_hash_of_name, FlashArray,
    ERASE_SIZE, FNV_OFFSET, MAGIC, MAX_PAYLOAD_SIZE, TOTAL_BLOCKS,
};

#[test]
fn fnv1a_of_known_names() {
    assert_eq!(type_hash_of_name(b""), FNV_OFFSET);
    assert_eq!(type_hash_of_name(b"a"), 0xE40C_292C);
    assert_eq!(type_hash_of_name(b"foobar"), 0xBF9C_F968);
    assert_ne!(type_hash_of_name(b"i32"), type_hash_of_name(b"u32"));
}

#[test]
fn block_offsets_count_down_from_the_end() {
    let capacity = 2 * 1024 * 1024;
    assert_eq!(block_offset(capacity, 0), capacity - 4096);
    assert_eq!(block_offset(capacity, 1), capacity - 8192);
    assert_eq!(block_offset(capacity, TOTAL_BLOCKS - 1), 0);
}

#[test]
fn encoded_block_layout() {
    let block = encode_block(7, b"hi").unwrap();
    assert_eq!(block.len(), ERASE_SIZE);
    assert_eq!(&block[0..4], &MAGIC.to_le_bytes());
    assert_eq!(&block[4..8], &[7, 0, 0, 0]);
    assert_eq!(&block[8..10], &[2, 0]);
    assert_eq!(&block[10..12], b"hi");
    let crc = crc32fast::hash(&block[0..12]);
    assert_eq!(&block[12..16], &crc.to_le_bytes());
    assert!(block[16..].iter().all(|b| *b == 0xFF));
}

#[test]
fn crc_covers_header_and_payload() {
    let a = encode_block(1, b"abc").unwrap();
    let b = encode_block(2, b"abc").unwrap();
    assert_ne!(&a[13..17], &b[13..17]);
    assert_ne!(&a[13..17], &[0, 0, 0, 0]);
}

#[test]
fn read_after_write_gives_payload() {
    let payload: Vec<u8> = (0..200u32).map(|i| (i * 7) as u8).collect();
    let block = encode_block(0xDEAD_BEEF, &payload).unwrap();
    assert_eq!(decode_block(&block, 0xDEAD_BEEF), Ok(Some(payload)));
}

#[test]
fn read_with_other_type_gives_none() {
    let block = encode_block(1, b"data").unwrap();
    assert_eq!(decode_block(&block, 2), Ok(None));
}

#[test]
fn erased_block_gives_none() {
    let erased = vec![0xFFu8; ERASE_SIZE];
    assert_eq!(decode_block(&erased, 1), Ok(None));
}

#[test]
fn corrupted_payload_is_reported() {
    let mut block = encode_block(1, b"data").unwrap();
    block[11] ^= 0x01;
    assert_eq!(decode_block(&block, 1), Err(Error::StorageCorrupted));
}

#[test]
fn oversized_length_is_reported() {
    let mut block = encode_block(1, b"data").unwrap();
    block[8] = 0xFF;
    block[9] = 0xFF;
    assert_eq!(decode_block(&block, 1), Err(Error::StorageCorrupted));
}

#[test]
fn payload_size_limit() {
    let largest = vec![0x55u8; MAX_PAYLOAD_SIZE];
    let block = encode_block(3, &largest).unwrap();
    assert_eq!(decode_block(&block, 3), Ok(Some(largest)));
    let too_large = vec![0u8; MAX_PAYLOAD_SIZE + 1];
    assert_eq!(encode_block(3, &too_large), Err(Error::FormatError));
}

#[test]
fn reserve_blocks_advances_the_counter() {
    assert_eq!(reserve_blocks(0, 3), (3, Ok(0)));
    assert_eq!(reserve_blocks(3, 2), (5, Ok(3)));
    assert_eq!(reserve_blocks(510, 2), (512, Ok(510)));
}

#[test]
fn reserve_blocks_out_of_range() {
    assert_eq!(reserve_blocks(511, 2), (511, Err(Error::IndexOutOfBounds)));
    assert_eq!(reserve_blocks(u32::MAX, 2), (1, Err(Error::IndexOutOfBounds)));
}

#[test]
fn flash_array_reserves_consecutive_blocks() {
    let (next, ids) = FlashArray::<3>::reserve(4);
    assert_eq!(next, 7);
    assert_eq!(ids, Ok([4, 5, 6]));
    let (after, second) = FlashArray::<2>::reserve(next);
    assert_eq!(after, 9);
    assert_eq!(second, Ok([7, 8]));
    let (stuck, refused) = FlashArray::<4>::reserve(510);
    assert_eq!(stuck, 510);
    assert_eq!(refused, Err(Error::IndexOutOfBounds));
}

#[test]
fn offset_round_trips_through_a_block() {
    for offset in [MIN_OFFSET_MINUTES, -300, 0, 60, 330, MAX_OFFSET_MINUTES] {
        let image = encode_offset(offset, 42).unwrap();
        assert_eq!(image.len(), ERASE_SIZE);
        assert_eq!(decode_offset(&image, 42), Ok(Some(offset)));
        assert_eq!(decode_offset(&image, 43), Ok(None));
    }
}

#[test]
fn offset_payload_is_postcard() {
    let image = encode_offset(-300, 9).unwrap();
    assert_eq!(&image[8..10], &[2, 0]);
    assert_eq!(&image[10..12], &[0xD7, 0x04]);
    let image = encode_offset(60, 9).unwrap();
    assert_eq!(&image[8..11], &[1, 0, 0x78]);
}

#[test]
fn offset_out_of_range_is_refused() {
    assert_eq!(encode_offset(MAX_OFFSET_MINUTES + 1, 1), Err(Error::FormatError));
    assert_eq!(encode_offset(MIN_OFFSET_MINUTES - 1, 1), Err(Error::FormatError));
}

#[test]
fn offset_with_bad_payload_is_corrupted() {
    let image = encode_block(5, &[0xFF, 0xFF, 0xFF, 0xFF, 0xFF, 0xFF]).unwrap();
    assert_eq!(decode_offset(&image, 5), Err(Error::StorageCorrupted));
}

#[test]
fn error_messages() {
    assert_eq!(Error::StorageCorrupted.message(), "Stored data is corrupted");
    assert_eq!(Error::FormatError.message(), "Format error");
}

/// The CRC-32 (IEEE) register algorithm, bit by bit.
fn bitwise_crc32(data: &[u8]) -> u32 {
    let mut register = 0xFFFF_FFFFu32;
    for &byte in data {
        register ^= u32::from(byte);
        for _ in 0..8 {
            register = if register & 1 == 1 { (register >> 1) ^ 0xEDB8_8320 } else { register >> 1 };
        }
    }
    register ^ 0xFFFF_FFFF
}

#[test]
fn block_crc_is_the_bitwise_crc32_of_the_body() {
    assert_eq!(bitwise_crc32(b"123456789"), 0xCBF4_3926);
    let payload = b"123456789";
    let image = encode_block(0x1234_5678, payload).unwrap();
    let body_len = 10 + payload.len();
    let stored = u32::from_le_bytes([image[body_len], image[body_len + 1], image[body_len + 2], image[body_len + 3]]);
    assert_eq!(stored, bitwise_crc32(&image[..body_len]));
}
