use core::num::NonZeroU8;

use device_kit::bit_matrix_led4::{BitMatrixLed4, BitsToIndexes};

#[test]
fn test_from_bits() {
    // Creates array with same bits in all positions
    let matrix = BitMatrixLed4::from_bits(0b_0011_1111);
    assert_eq!(matrix[0], 0b_0011_1111);
    assert_eq!(matrix[1], 0b_0011_1111);
    assert_eq!(matrix[2], 0b_0011_1111);
    assert_eq!(matrix[3], 0b_0011_1111);
}

#[test]
fn test_from_number() {
    // Converts number to digit segments (1234)
    let matrix = BitMatrixLed4::from_number(1234, 0);
    assert_eq!(matrix[0], 0b_0000_0110); // '1'
    assert_eq!(matrix[1], 0b_0101_1011); // '2'
    assert_eq!(matrix[2], 0b_0100_1111); // '3'
    assert_eq!(matrix[3], 0b_0110_0110); // '4'
}

#[test]
fn test_from_number_overflow() {
    // Number > 9999 should light all decimal points
    let matrix = BitMatrixLed4::from_number(12345, 0);
    for &bits in matrix.iter() {
        assert_ne!(bits & 0b_1000_0000, 0, "Decimal point should be lit");
    }
}

#[test]
fn test_from_text() {
    // Converts characters to segments
    let matrix = BitMatrixLed4::from_text(&['A', 'b', 'C', 'd']);
    assert_eq!(matrix[0], 0b_0111_0111); // 'A'
    assert_eq!(matrix[1], 0b_0111_1100); // 'b'
    assert_eq!(matrix[2], 0b_0011_1001); // 'C'
    assert_eq!(matrix[3], 0b_0101_1110); // 'd'
}

#[test]
fn test_char_to_led_special_chars() {
    // Test some special character mappings
    let matrix = BitMatrixLed4::from_text(&[' ', '-', '_', '.']);
    assert_eq!(matrix[0], 0b_0000_0000); // space
    assert_eq!(matrix[1], 0b_0100_0000); // '-'
    assert_eq!(matrix[2], 0b_0000_1000); // '_'
    assert_eq!(matrix[3], 0b_1000_0000); // '.'
}

#[test]
fn from_number_pads_short_numbers() {
    let matrix = BitMatrixLed4::from_number(7, 0b_0100_0000);
    assert_eq!(matrix[0], 0b_0100_0000);
    assert_eq!(matrix[1], 0b_0100_0000);
    assert_eq!(matrix[2], 0b_0100_0000);
    assert_eq!(matrix[3], 0b_0000_0111);
}

#[test]
fn from_number_zero_shows_one_digit() {
    let matrix = BitMatrixLed4::from_number(0, 0);
    assert_eq!(matrix[0], 0);
    assert_eq!(matrix[3], 0b_0011_1111);
}

#[test]
fn from_number_overflow_keeps_last_four_digits() {
    let matrix = BitMatrixLed4::from_number(12345, 0);
    assert_eq!(matrix[0], 0b_0101_1011 | 0b_1000_0000); // '2'
    assert_eq!(matrix[3], 0b_0110_1101 | 0b_1000_0000); // '5'
}

#[test]
fn from_text_non_ascii_is_blank() {
    let matrix = BitMatrixLed4::from_text(&['é', '1', '2', '3']);
    assert_eq!(matrix[0], 0);
    assert_eq!(matrix[1], 0b_0000_0110);
}

#[test]
fn bitor_assign_lights_every_cell() {
    let mut matrix = BitMatrixLed4::from_number(42, 0);
    matrix.bitor_assign(0b_1000_0000);
    for &bits in matrix.iter() {
        assert_ne!(bits & 0b_1000_0000, 0);
    }
    let default_matrix = BitMatrixLed4::default();
    assert_eq!(default_matrix.cell(2), 0);
}

#[test]
fn test_bits_to_indexes() {
    // Optimizes multiplexing by grouping identical patterns
    // For "1221", digit '1' appears at positions 0 and 3, digit '2' at positions 1 and 2
    let matrix = BitMatrixLed4::from_number(1221, 0);
    let mut bits_to_index = BitsToIndexes::new();

    matrix
        .bits_to_indexes(&mut bits_to_index)
        .expect("Should succeed");

    // Should have exactly 2 unique patterns
    assert_eq!(
        bits_to_index.len(),
        2,
        "Should have 2 unique digit patterns"
    );

    // Check that the grouping is correct
    let pattern_1 = NonZeroU8::new(0b_0000_0110).unwrap(); // '1'
    let pattern_2 = NonZeroU8::new(0b_0101_1011).unwrap(); // '2'

    if let Some(indexes) = bits_to_index.get(pattern_1.get()) {
        assert_eq!(indexes.len(), 2, "Pattern '1' should appear twice");
        assert!(indexes.contains(&0), "Should include index 0");
        assert!(indexes.contains(&3), "Should include index 3");
    } else {
        panic!("Pattern '1' not found");
    }

    if let Some(indexes) = bits_to_index.get(pattern_2.get()) {
        assert_eq!(indexes.len(), 2, "Pattern '2' should appear twice");
        assert!(indexes.contains(&1), "Should include index 1");
        assert!(indexes.contains(&2), "Should include index 2");
    } else {
        panic!("Pattern '2' not found");
    }
}

#[test]
fn bits_to_indexes_groups_in_order_of_first_cell() {
    let matrix = BitMatrixLed4::new([0, 0b_0000_0110, 0, 0b_0101_1011]);
    let mut grouped = BitsToIndexes::new();
    matrix.bits_to_indexes(&mut grouped).unwrap();
    assert_eq!(grouped.len(), 2);
    assert_eq!(grouped.bits(0), 0b_0000_0110);
    assert_eq!(grouped.indexes(0), vec![1]);
    assert_eq!(grouped.bits(1), 0b_0101_1011);
    assert_eq!(grouped.indexes(1), vec![3]);
    assert!(grouped.get(0).is_none());
}

#[test]
fn bits_to_indexes_blank_matrix_has_no_groups() {
    let matrix = BitMatrixLed4::default();
    let mut grouped = BitsToIndexes::new();
    matrix.bits_to_indexes(&mut grouped).unwrap();
    assert_eq!(grouped.len(), 0);
    let same = BitMatrixLed4::from_bits(0b_0011_1111);
    same.bits_to_indexes(&mut grouped).unwrap();
    assert_eq!(grouped.len(), 1);
    assert_eq!(grouped.indexes(0), vec![0, 1, 2, 3]);
}
