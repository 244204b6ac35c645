use device_kit::led_layout::LedLayout;
use device_kit::mapping::LedLayout as Mapping;

fn layout<const N: usize, const W: usize, const H: usize>(map: [(u16, u16); N]) -> LedLayout<N, W, H> {
    assert!(LedLayout::<N, W, H>::is_valid(&map));
    LedLayout::new(map)
}

#[test]
fn serpentine_column_major_3x2() {
    let map: LedLayout<6, 3, 2> = LedLayout::serpentine_column_major();
    let expected = layout::<6, 3, 2>([(0, 0), (0, 1), (1, 1), (1, 0), (2, 0), (2, 1)]);
    assert!(map.equals(&expected));
}

#[test]
fn serpentine_row_major_3x2() {
    let map: LedLayout<6, 3, 2> = LedLayout::serpentine_row_major();
    let expected = layout::<6, 3, 2>([(0, 0), (1, 0), (2, 0), (2, 1), (1, 1), (0, 1)]);
    assert!(map.equals(&expected));
}

#[test]
fn linear_h_is_one_row() {
    let linear: LedLayout<6, 6, 1> = LedLayout::linear_h();
    let expected = layout::<6, 6, 1>([(0, 0), (1, 0), (2, 0), (3, 0), (4, 0), (5, 0)]);
    assert!(linear.equals(&expected));
}

#[test]
fn linear_v_is_one_column() {
    let linear: LedLayout<3, 1, 3> = LedLayout::linear_v();
    assert_eq!(linear.map(), &[(0, 0), (0, 1), (0, 2)]);
}

#[test]
fn equals_distinguishes_layouts() {
    let linear: LedLayout<4, 4, 1> = LedLayout::linear_h();
    let rotated: LedLayout<4, 4, 1> = LedLayout::<4, 1, 4>::linear_v().rotate_cw();
    assert!(linear.equals(&linear));
    assert!(!linear.equals(&rotated));
    assert_eq!(rotated.map(), &[(3, 0), (2, 0), (1, 0), (0, 0)]);
}

#[test]
fn rotate_cw_of_serpentine() {
    let rotated: LedLayout<6, 2, 3> = LedLayout::<6, 3, 2>::serpentine_column_major().rotate_cw();
    let expected = layout::<6, 2, 3>([(1, 0), (0, 0), (0, 1), (1, 1), (1, 2), (0, 2)]);
    assert!(rotated.equals(&expected));
}

#[test]
fn rotate_cw_of_row_serpentine() {
    let map = layout::<6, 3, 2>([(0, 0), (1, 0), (2, 0), (2, 1), (1, 1), (0, 1)]);
    let rotated: LedLayout<6, 2, 3> = map.rotate_cw();
    let expected = layout::<6, 2, 3>([(1, 0), (1, 1), (1, 2), (0, 2), (0, 1), (0, 0)]);
    assert!(rotated.equals(&expected));
}

#[test]
fn flip_h_of_serpentine() {
    let flipped = LedLayout::<6, 3, 2>::serpentine_column_major().flip_h();
    let expected = layout::<6, 3, 2>([(2, 0), (2, 1), (1, 1), (1, 0), (0, 0), (0, 1)]);
    assert!(flipped.equals(&expected));
}

#[test]
fn rotate_180_of_serpentine() {
    let rotated = LedLayout::<6, 3, 2>::serpentine_column_major().rotate_180();
    let expected = layout::<6, 3, 2>([(2, 1), (2, 0), (1, 0), (1, 1), (0, 1), (0, 0)]);
    assert!(rotated.equals(&expected));
}

#[test]
fn rotate_ccw_of_serpentine() {
    let rotated: LedLayout<6, 2, 3> = LedLayout::<6, 3, 2>::serpentine_column_major().rotate_ccw();
    let expected = layout::<6, 2, 3>([(0, 2), (1, 2), (1, 1), (0, 1), (0, 0), (1, 0)]);
    assert!(rotated.equals(&expected));
}

#[test]
fn flip_v_of_serpentine() {
    let flipped = LedLayout::<6, 3, 2>::serpentine_column_major().flip_v();
    let expected = layout::<6, 3, 2>([(0, 1), (0, 0), (1, 0), (1, 1), (2, 1), (2, 0)]);
    assert!(flipped.equals(&expected));
}

#[test]
fn concat_h_of_two_serpentines() {
    let part: LedLayout<6, 3, 2> = LedLayout::serpentine_column_major();
    let combined: LedLayout<12, 6, 2> = part.concat_h::<6, 12, 3, 6>(part);
    let expected = layout::<12, 6, 2>([
        (0, 0), (0, 1), (1, 1), (1, 0), (2, 0), (2, 1), (3, 0), (3, 1), (4, 1), (4, 0), (5, 0), (5, 1),
    ]);
    assert!(combined.equals(&expected));
}

#[test]
fn concat_v_of_two_serpentines() {
    let part: LedLayout<6, 3, 2> = LedLayout::serpentine_column_major();
    let combined: LedLayout<12, 3, 4> = part.concat_v::<6, 12, 2, 4>(part);
    let expected = layout::<12, 3, 4>([
        (0, 0), (0, 1), (1, 1), (1, 0), (2, 0), (2, 1), (0, 2), (0, 3), (1, 3), (1, 2), (2, 2), (2, 3),
    ]);
    assert!(combined.equals(&expected));
}

#[test]
fn mapping_by_xy_inverts_the_map() {
    let map: LedLayout<6, 3, 2> = LedLayout::serpentine_column_major();
    assert_eq!(map.mapping_by_xy(), [0, 3, 4, 1, 2, 5]);
}

#[test]
fn invalid_layouts_are_rejected() {
    assert!(!LedLayout::<4, 2, 2>::is_valid(&[(0, 0), (0, 0), (1, 1), (1, 0)]));
    assert!(!LedLayout::<4, 2, 2>::is_valid(&[(0, 0), (2, 0), (1, 1), (0, 1)]));
    assert!(LedLayout::<4, 2, 2>::is_valid(&[(0, 0), (1, 0), (1, 1), (0, 1)]));
}

#[test]
fn rotating_four_times_is_identity() {
    let map: LedLayout<6, 3, 2> = LedLayout::serpentine_row_major();
    let back: LedLayout<6, 3, 2> = map.rotate_cw().rotate_cw().rotate_cw().rotate_cw();
    assert!(back.equals(&map));
    let undone: LedLayout<6, 3, 2> = map.rotate_cw().rotate_ccw();
    assert!(undone.equals(&map));
    assert!(map.flip_h().flip_h().equals(&map));
    assert!(map.flip_v().flip_v().equals(&map));
    assert!(map.rotate_180().rotate_180().equals(&map));
}

#[test]
fn mapping_module_matches_layouts() {
    let map: Mapping<6, 2, 3> = Mapping::serpentine_column_major();
    assert_eq!(map.map, [(0, 0), (0, 1), (1, 1), (1, 0), (2, 0), (2, 1)]);
    let rotated: Mapping<6, 3, 2> = map.rotate_cw();
    assert_eq!(rotated.map, [(1, 0), (0, 0), (0, 1), (1, 1), (1, 2), (0, 2)]);
}
