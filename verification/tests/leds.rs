use device_kit::animation::{animation_accepted, animation_loop_step, LoopAction, LoopEvent, LoopState};
use device_kit::color::{black, white, RGB8};
use device_kit::led12x4::{
    frame_to_pixels, led12x4_loop_step, perimeter_chase_animation, perimeter_indices, pixels_to_frame,
    render_glyph, text_frame, xy_to_index, Led12x4Action, Led12x4Event, COLS, N, PERIMETER_LENGTH, ROWS,
};
use device_kit::led_24x4::{demo_1234, display_frame, rows_for, xy_to_index as panel_index, FONT};
use device_kit::led_strip::{apply_correction, frame_words, grb_word, Current, Frame};
use device_kit::led_strip_simple::{apply_max_brightness, max_brightness, rgb, scale_brightness, wheel, SimpleStripStatic};

const RED: RGB8 = RGB8 { r: 255, g: 0, b: 0 };
const BLACK: RGB8 = RGB8 { r: 0, g: 0, b: 0 };

#[test]
fn animation_loop_restarts() {
    let (state, action) = animation_loop_step(LoopState::Idle, LoopEvent::Animate { frame_count: 3 }, 1);
    assert_eq!(action, LoopAction::SignalThenShowFrame(0));
    assert_eq!(state, LoopState::Animating { frame_count: 3, index: 0, restarts: 1 });
    let (state, action) = animation_loop_step(state, LoopEvent::FrameElapsed, 1);
    assert_eq!(action, LoopAction::ShowFrame(1));
    let (state, action) = animation_loop_step(state, LoopEvent::Animate { frame_count: 2 }, 1);
    assert_eq!(action, LoopAction::SignalThenShowFrame(0));
    assert_eq!(state, LoopState::Animating { frame_count: 2, index: 0, restarts: 0 });
    let (state, action) = animation_loop_step(state, LoopEvent::Animate { frame_count: 5 }, 1);
    assert_eq!(action, LoopAction::Drop);
    assert_eq!(state, LoopState::Idle);
}

#[test]
fn animation_frames_wrap_and_static_wins() {
    let mut state = LoopState::Animating { frame_count: 2, index: 0, restarts: 0 };
    let mut shown = Vec::new();
    for _ in 0..3 {
        let (next, action) = animation_loop_step(state, LoopEvent::FrameElapsed, 0);
        if let LoopAction::ShowFrame(i) = action {
            shown.push(i);
        }
        state = next;
    }
    assert_eq!(shown, vec![1, 0, 1]);
    assert_eq!(
        animation_loop_step(state, LoopEvent::ShowStatic, 0),
        (LoopState::Idle, LoopAction::ShowStaticThenSignal)
    );
    let (state, action) = animation_loop_step(LoopState::Idle, LoopEvent::Animate { frame_count: 2 }, 0);
    assert_eq!(action, LoopAction::SignalThenShowFrame(0));
    assert_eq!(animation_loop_step(state, LoopEvent::Animate { frame_count: 2 }, 0).1, LoopAction::Drop);
}

#[test]
fn animation_acceptance() {
    assert!(animation_accepted(&[10, 20], 4));
    assert!(!animation_accepted(&[], 4));
    assert!(!animation_accepted(&[10, 0], 4));
    assert!(!animation_accepted(&[1, 1, 1], 2));
}

#[test]
fn led12x4_index_snakes() {
    assert_eq!(xy_to_index(0, 0), 0);
    assert_eq!(xy_to_index(0, 3), 3);
    assert_eq!(xy_to_index(1, 0), 7);
    assert_eq!(xy_to_index(1, 3), 4);
    assert_eq!(xy_to_index(11, 3), 44);
    assert_eq!(panel_index(1, 0), 7);
    assert_eq!(panel_index(2, 1), 9);
}

#[test]
fn led12x4_perimeter() {
    let clockwise = perimeter_indices(true);
    assert_eq!(clockwise[0], 0);
    assert_eq!(clockwise[1], 7);
    assert_eq!(clockwise[11], 47);
    assert_eq!(clockwise[12], 46);
    assert_eq!(clockwise[27], 1);
    let counter = perimeter_indices(false);
    assert_eq!(counter[0], 0);
    assert_eq!(counter[1], clockwise[PERIMETER_LENGTH - 1]);
    assert_eq!(counter[PERIMETER_LENGTH - 1], clockwise[1]);
    let mut sorted = clockwise.to_vec();
    sorted.sort();
    sorted.dedup();
    assert_eq!(sorted.len(), PERIMETER_LENGTH);
}

#[test]
fn led12x4_frames_round_trip() {
    let mut frame = [[BLACK; COLS]; ROWS];
    frame[2][5] = RED;
    let pixels = frame_to_pixels(&frame);
    assert_eq!(pixels[xy_to_index(5, 2)], RED);
    assert_eq!(pixels.iter().filter(|p| **p == RED).count(), 1);
    let back = pixels_to_frame(&pixels);
    assert_eq!(back, frame);
}

#[test]
fn led12x4_text_frame() {
    let colors = [RED, white(), RGB8::new(0, 0, 9), RGB8::new(1, 2, 3)];
    let frame = text_frame(['1', '2', '3', '4'], colors);
    // '1' is 010 / 110 / 010 / 111.
    assert_eq!(frame[0][0], BLACK);
    assert_eq!(frame[0][1], RED);
    assert_eq!(frame[1][0], RED);
    assert_eq!(frame[3][2], RED);
    // '2' starts at column 3 with 110.
    assert_eq!(frame[0][3], white());
    assert_eq!(frame[0][5], BLACK);
}

#[test]
fn led12x4_render_glyph() {
    let mut pixels = [white(); N];
    render_glyph([0b100, 0, 0, 0b001], RED, 3, &mut pixels, black());
    assert_eq!(pixels[panel_index(3, 0)], RED);
    assert_eq!(pixels[panel_index(4, 0)], BLACK);
    assert_eq!(pixels[panel_index(5, 3)], RED);
    assert_eq!(pixels[panel_index(0, 0)], white());
    assert_eq!(pixels[panel_index(6, 0)], white());
}

#[test]
fn led12x4_chase() {
    let frames = perimeter_chase_animation(true, RED, 50);
    assert_eq!(frames.len(), PERIMETER_LENGTH);
    assert_eq!(frames[0].duration, 50);
    assert_eq!(frames[0].frame[0][0], RED);
    assert_eq!(frames[0].frame[0][1], BLACK);
    assert_eq!(frames[13].frame[2][11], RED);
    for frame in frames.iter() {
        let lit = frame.frame.iter().flatten().filter(|p| **p == RED).count();
        assert_eq!(lit, 1);
    }
}

#[test]
fn led12x4_loop_never_drops() {
    let (state, action) = led12x4_loop_step(LoopState::Idle, Led12x4Event::Animate { frame_count: 2 });
    assert_eq!(action, Led12x4Action::ShowFrame { index: 0, signal: true });
    let (state, action) = led12x4_loop_step(state, Led12x4Event::FrameElapsed);
    assert_eq!(action, Led12x4Action::ShowFrame { index: 1, signal: false });
    let (state, action) = led12x4_loop_step(state, Led12x4Event::FrameElapsed);
    assert_eq!(action, Led12x4Action::ShowFrame { index: 0, signal: true });
    let (_, action) = led12x4_loop_step(state, Led12x4Event::Animate { frame_count: 4 });
    assert_eq!(action, Led12x4Action::ShowFrame { index: 0, signal: true });
    assert_eq!(
        led12x4_loop_step(state, Led12x4Event::ShowChars),
        (LoopState::Idle, Led12x4Action::ShowThenSignal)
    );
}

#[test]
fn panel_font_and_frame() {
    assert_eq!(rows_for('0'), FONT[0]);
    assert_eq!(rows_for('9'), FONT[9]);
    assert_eq!(rows_for(' '), [0, 0, 0, 0]);
    assert_eq!(rows_for('x'), [0b111; 4]);
    let (chars, colors) = demo_1234();
    assert_eq!(chars, ['1', '2', '3', '4']);
    assert_eq!(colors[0], RGB8::new(32, 0, 0));
    let frame = display_frame(chars, colors);
    assert_eq!(frame[panel_index(1, 0)], colors[0]);
    assert_eq!(frame[panel_index(0, 0)], BLACK);
    assert_eq!(frame[panel_index(3, 0)], colors[1]);
    let blank = display_frame([' '; 4], colors);
    assert!(blank.iter().all(|p| *p == BLACK));
}

#[test]
fn strip_current_budget() {
    assert_eq!(Current::Unlimited.max_brightness(1000), 255);
    assert_eq!(Current::Milliamps(500).max_brightness(1000), 127);
    assert_eq!(Current::Milliamps(5000).max_brightness(1000), 255);
    assert_eq!(max_brightness(10, 300), 127);
    assert_eq!(max_brightness(1, 1000), 255);
}

#[test]
fn strip_frames_and_words() {
    let frame: Frame<3> = Frame::new();
    assert!(frame.0.iter().all(|p| *p == BLACK));
    assert_eq!(Frame::<3>::len(), 3);
    let mut filled: Frame<2> = Frame::filled(RGB8::new(1, 2, 3));
    let mut table = [0u8; 256];
    for (i, entry) in table.iter_mut().enumerate() {
        *entry = (i as u8).wrapping_mul(2);
    }
    apply_correction(&mut filled, &table);
    assert_eq!(filled.0[1], RGB8::new(2, 4, 6));
    assert_eq!(grb_word(RGB8::new(0x11, 0x22, 0x33)), 0x2211_3300);
    assert_eq!(frame_words(&[RGB8::new(1, 2, 3), RED]), [0x0201_0300, 0x00FF_0000]);
}

#[test]
fn simple_strip_colors() {
    assert_eq!(wheel(0), RED);
    assert_eq!(wheel(85), RGB8::new(0, 255, 0));
    assert_eq!(wheel(170), RGB8::new(0, 0, 255));
    assert_eq!(wheel(128), RGB8::new(0, 126, 129));
    assert_eq!(rgb(1, 2, 3), RGB8::new(1, 2, 3));
    assert_eq!(scale_brightness(200, 255), 200);
    assert_eq!(scale_brightness(200, 128), 100);
    assert_eq!(scale_brightness(255, 0), 0);
    let mut frame = [RGB8::new(255, 100, 10), white()];
    apply_max_brightness(&mut frame, 51);
    assert_eq!(frame, [RGB8::new(51, 20, 2), RGB8::new(51, 51, 51)]);
    let _resources: SimpleStripStatic<8> = SimpleStripStatic::new_static();
}

#[test]
fn led12x4_unsupported_character_is_solid() {
    let frame = text_frame(['é', ' ', '\u{7}', 'A'], [RED; 4]);
    for r in 0..ROWS {
        for c in 0..3 {
            assert_eq!(frame[r][c], RED);
            assert_eq!(frame[r][c + 6], RED);
            assert_eq!(frame[r][c + 3], BLACK);
        }
    }
}

#[test]
fn led12x4_characters_outside_the_supported_set_are_solid() {
    // '#', 'G' and 'z' have glyphs in the 3x4 font, but this display draws only the
    // space, digits and its listed letters; 'b' is one of them.
    let frame = text_frame(['#', 'G', 'z', 'b'], [RED; 4]);
    for r in 0..ROWS {
        for c in 0..9 {
            assert_eq!(frame[r][c], RED);
        }
    }
    let lit = (9..12).flat_map(|c| (0..ROWS).map(move |r| (r, c))).filter(|&(r, c)| frame[r][c] == RED).count();
    assert!(lit > 0 && lit < 12);
}

#[test]
fn counter_clockwise_chase_starts_top_left() {
    let frames = perimeter_chase_animation(false, RED, 10);
    assert_eq!(frames[0].frame[0][0], RED);
    assert_eq!(frames[1].frame[1][0], RED);
}
