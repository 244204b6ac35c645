use device_kit::bit_matrix::BitMatrix;
use device_kit::bit_matrix3x4::{glyph_for, glyph_rows, Glyphs};
use device_kit::bit_matrix_4led::BitMatrix4Led;
use device_kit::bits_to_indexes::{group_cells, BitsToIndexes};
use device_kit::blink_state::BlinkState as PlainBlinkState;
use device_kit::blinkable_display::BlinkMode;
use device_kit::blinker_4led::BlinkState4Led;
use device_kit::blinker_led4::BlinkStateLed4;
use device_kit::button::{
    press_start, press_step, wait_in, ButtonConnection, PressDuration, PressEvent, PressPhase, PressStep,
    PressWait, BUTTON_DEBOUNCE_DELAY, BUTTON_POLL_INTERVAL, LONG_PRESS_DURATION,
};
use device_kit::cwf::bit_matrix::BitMatrix as CwfBitMatrix;
use device_kit::cwf::blink_state::BlinkState as CwfBlinkState;
use device_kit::error::Error;
use device_kit::led4::{
    led4_after_timer, led4_round, AnimationFrame, BlinkState, Led4Mode, Led4Output, Led4Wait,
    BLINK_OFF_DELAY, BLINK_ON_DELAY,
};
use device_kit::led_4seg::{led_4seg_round, number_to_cells, text_to_cells, Leds};
use device_kit::multiplex::{multiplex_plan, next_group, timeout_passed, MultiplexPlan};
use device_kit::output_array::{pins_to_set, segment_levels};

const TEXT: [char; 4] = ['1', '2', '3', '4'];
const BLANK: [char; 4] = [' ', ' ', ' ', ' '];

#[test]
fn led4_solid_text_waits_for_command() {
    let mode = Led4Mode::Text { blink_state: BlinkState::default(), text: TEXT };
    match led4_round(mode) {
        (Led4Output::Text(text), Led4Wait::ForCommand) => assert_eq!(text, TEXT),
        other => panic!("unexpected round {other:?}"),
    }
}

#[test]
fn led4_blinking_alternates() {
    let on = Led4Mode::Text { blink_state: BlinkState::BlinkingAndOn, text: TEXT };
    match led4_round(on) {
        (Led4Output::Text(text), wait) => {
            assert_eq!(text, TEXT);
            assert_eq!(wait, Led4Wait::Ticks(BLINK_ON_DELAY));
        }
        other => panic!("unexpected round {other:?}"),
    }
    let off = led4_after_timer(on);
    match led4_round(off) {
        (Led4Output::Text(text), wait) => {
            assert_eq!(text, BLANK);
            assert_eq!(wait, Led4Wait::Ticks(BLINK_OFF_DELAY));
        }
        other => panic!("unexpected round {other:?}"),
    }
    match led4_after_timer(off) {
        Led4Mode::Text { blink_state, text } => {
            assert_eq!(blink_state, BlinkState::BlinkingAndOn);
            assert_eq!(text, TEXT);
        }
        other => panic!("unexpected mode {other:?}"),
    }
}

#[test]
fn led4_animation_cycles_frames() {
    let frame = AnimationFrame::new(TEXT, 100);
    assert_eq!(frame.text, TEXT);
    assert_eq!(frame.duration, 100);
    let mut mode = Led4Mode::Animation { frame_count: 3, index: 0 };
    let mut shown = Vec::new();
    for _ in 0..4 {
        match led4_round(mode) {
            (Led4Output::Frame(index), Led4Wait::FrameDuration(wait_index)) => {
                assert_eq!(index, wait_index);
                shown.push(index);
            }
            other => panic!("unexpected round {other:?}"),
        }
        mode = led4_after_timer(mode);
    }
    assert_eq!(shown, vec![0, 1, 2, 0]);
    match led4_round(Led4Mode::Animation { frame_count: 0, index: 0 }) {
        (Led4Output::Keep, Led4Wait::ForCommand) => {}
        other => panic!("unexpected round {other:?}"),
    }
}

#[test]
fn blink_enums_agree() {
    assert_eq!(PlainBlinkState::default().execute_round(TEXT), (TEXT, None));
    assert_eq!(PlainBlinkState::BlinkingAndOn.execute_round(TEXT), (TEXT, Some(BLINK_ON_DELAY)));
    assert_eq!(PlainBlinkState::BlinkingButOff.execute_round(TEXT), (BLANK, Some(BLINK_OFF_DELAY)));
    assert_eq!(PlainBlinkState::BlinkingAndOn.after_timer(), PlainBlinkState::BlinkingButOff);
    assert_eq!(PlainBlinkState::Solid.after_timer(), PlainBlinkState::Solid);

    assert_eq!(BlinkMode::default().execute_round(TEXT), (TEXT, None));
    assert_eq!(BlinkMode::BlinkingButOff.execute_round(TEXT), (BLANK, Some(BLINK_OFF_DELAY)));
    assert_eq!(BlinkMode::BlinkingButOff.after_timer(), BlinkMode::BlinkingAndOn);

    assert_eq!(BlinkState4Led::default().execute_round(TEXT), (TEXT, None));
    assert_eq!(BlinkState4Led::BlinkingAndOn.execute_round(TEXT), (TEXT, Some(BLINK_ON_DELAY)));
    assert_eq!(BlinkState4Led::BlinkingAndOn.after_timer().after_timer(), BlinkState4Led::BlinkingAndOn);

    assert_eq!(BlinkStateLed4::default().execute_round(TEXT), (TEXT, None));
    assert_eq!(BlinkStateLed4::BlinkingButOff.execute_round(TEXT), (BLANK, Some(BLINK_OFF_DELAY)));
    assert_eq!(BlinkStateLed4::BlinkingButOff.after_timer(), BlinkStateLed4::BlinkingAndOn);

    assert_eq!(CwfBlinkState::default().execute_round(TEXT), (TEXT, None));
    assert_eq!(CwfBlinkState::BlinkingAndOn.execute_round(TEXT), (TEXT, Some(BLINK_ON_DELAY)));
    assert_eq!(CwfBlinkState::BlinkingAndOn.after_timer(), CwfBlinkState::BlinkingButOff);
}

#[test]
fn four_segment_cells() {
    assert_eq!(text_to_cells(&Leds::ASCII_TABLE, &TEXT), [0x06, 0x5B, 0x4F, 0x66]);
    assert_eq!(number_to_cells(42, 0), [0, 0, 0x66, 0x5B]);
    assert_eq!(number_to_cells(0, 0), [0, 0, 0, 0x3F]);
    assert_eq!(number_to_cells(12345, 0), [0x5B | 0x80, 0x4F | 0x80, 0x66 | 0x80, 0x6D | 0x80]);
}

#[test]
fn four_segment_rounds() {
    let (matrix, wait) = led_4seg_round(BlinkState4Led::Solid, TEXT);
    assert_eq!(wait, None);
    assert_eq!([matrix.cell(0), matrix.cell(1), matrix.cell(2), matrix.cell(3)], [0x06, 0x5B, 0x4F, 0x66]);
    let (matrix, wait) = led_4seg_round(BlinkState4Led::BlinkingButOff, TEXT);
    assert_eq!(wait, Some(BLINK_OFF_DELAY));
    assert!(matrix.iter().all(|bits| *bits == 0));
    let (_, wait) = led_4seg_round(BlinkState4Led::BlinkingAndOn, TEXT);
    assert_eq!(wait, Some(BLINK_ON_DELAY));
}

#[test]
fn matrix_4led_operations() {
    let mut matrix = BitMatrix4Led::from_number(7, 0);
    assert_eq!(matrix.cell(3), 0x07);
    matrix.bitor_assign(0x80);
    assert_eq!(matrix.cell(0), 0x80);
    assert_eq!(matrix.cell(3), 0x87);
    let from_text = BitMatrix4Led::from_text(&['A', 'b', ' ', '-']);
    let same = BitMatrix4Led::new([from_text.cell(0), from_text.cell(1), from_text.cell(2), from_text.cell(3)]);
    assert_eq!(same.cell(1), from_text.cell(1));
    let mut groups = BitsToIndexes::new();
    BitMatrix4Led::from_bits(0x3F).bits_to_indexes(&mut groups).unwrap();
    assert_eq!(groups.len(), 1);
    assert_eq!(groups.get(0x3F), Some(vec![0, 1, 2, 3]));
    for cell in matrix.iter_mut() {
        *cell = 0;
    }
    assert!(matrix.iter().all(|bits| *bits == 0));
}

#[test]
fn bit_matrix_from_str() {
    let matrix = BitMatrix::from_str("12").unwrap();
    assert_eq!([matrix.cell(0), matrix.cell(1), matrix.cell(2), matrix.cell(3)], [0x06, 0x5B, 0, 0]);
    let long = BitMatrix::from_str("123456").unwrap();
    assert!(long.iter().all(|bits| bits & 0x80 != 0));
    assert_eq!(long.cell(3), 0x66 | 0x80);
    assert!(BitMatrix::from_str("1é").is_err());
    let chars = BitMatrix::from_chars(&['1', '2', '3', '4']);
    assert_eq!(chars.cell(2), 0x4F);
    assert_eq!(BitMatrix::from_number(1234, 0).cell(0), 0x06);
}

#[test]
fn bit_matrix_groups() {
    let matrix = BitMatrix::new([0x06, 0x5B, 0x06, 0]);
    let groups = matrix.bits_to_indexes().unwrap();
    assert_eq!(groups.len(), 2);
    assert_eq!(groups.bits(0), 0x06);
    assert_eq!(groups.indexes(0), vec![0, 2]);
    assert_eq!(groups.bits(1), 0x5B);
    assert_eq!(groups.indexes(1), vec![1]);
    assert_eq!(groups.get(0), None);
    let grouped = group_cells(&[0, 0x06, 0x06, 0x06]);
    assert_eq!(grouped.len(), 1);
    assert_eq!(grouped.indexes(0), vec![1, 2, 3]);
}

#[test]
fn cwf_bit_matrix() {
    let matrix = CwfBitMatrix::from_text(&['1', '2', '3', '4']);
    assert_eq!(matrix.cell(0), 0x06);
    let mut groups = BitsToIndexes::new();
    CwfBitMatrix::from_bits(0).bits_to_indexes(&mut groups).unwrap();
    assert_eq!(groups.len(), 0);
    assert_eq!(CwfBitMatrix::from_number(12345, 0).cell(0) & 0x80, 0x80);
    let letters = CwfBitMatrix::from_text(&['b', 'B', 'd', '-']);
    assert_eq!([letters.cell(0), letters.cell(1), letters.cell(2), letters.cell(3)], [0x7C, 0, 0x5E, 0x40]);
}

#[test]
fn glyphs_3x4() {
    assert_eq!(glyph_for(b'A'), Glyphs::A);
    assert_eq!(glyph_for(b'a'), Glyphs::A);
    assert_eq!(glyph_for(b'0'), Glyphs::DIGIT_0);
    assert_eq!(glyph_for(b' '), Glyphs::BLANK);
    assert_eq!(glyph_for(0x7F), Glyphs::BLANK);
    assert_eq!(glyph_rows('~'), Glyphs::TILDE);
    assert_eq!(glyph_rows('é'), Glyphs::BLANK);
}

#[test]
fn multiplexing() {
    assert_eq!(multiplex_plan(0), MultiplexPlan::Dark);
    assert_eq!(multiplex_plan(1), MultiplexPlan::Steady);
    assert_eq!(multiplex_plan(3), MultiplexPlan::Cycle);
    assert_eq!(next_group(0, 3), 1);
    assert_eq!(next_group(2, 3), 0);
    assert!(timeout_passed(10, 60, 50));
    assert!(!timeout_passed(10, 59, 50));
}

#[test]
fn output_pins() {
    let levels = segment_levels(0b1000_0101);
    assert_eq!(levels, [true, false, true, false, false, false, false, true]);
    assert_eq!(pins_to_set(&[0, 3, 2], 4), (vec![0, 3, 2], Ok(())));
    assert_eq!(pins_to_set(&[0, 7, 2], 4), (vec![0], Err(Error::IndexOutOfBounds)));
}

#[test]
fn button_levels() {
    assert!(ButtonConnection::ToGround.pull_up());
    assert!(!ButtonConnection::ToVoltage.pull_up());
    assert!(ButtonConnection::ToGround.is_pressed(false));
    assert!(ButtonConnection::ToVoltage.is_pressed(true));
}

#[test]
fn button_short_and_long_press() {
    let (phase, wait) = press_start();
    assert_eq!(phase, PressPhase::WaitingForRelease);
    assert_eq!(wait, PressWait::Poll(BUTTON_POLL_INTERVAL));
    let steps = [
        (PressEvent::Level { pressed: false }, PressPhase::DebouncingRelease),
        (PressEvent::Elapsed, PressPhase::WaitingForPress),
        (PressEvent::Level { pressed: false }, PressPhase::WaitingForPress),
        (PressEvent::Level { pressed: true }, PressPhase::DebouncingPress),
        (PressEvent::Elapsed, PressPhase::Timing),
    ];
    let mut phase = phase;
    for (event, expected) in steps {
        match press_step(phase, event) {
            PressStep::Continue(next, wait) => {
                assert_eq!(next, expected);
                assert_eq!(wait, wait_in(next));
                phase = next;
            }
            PressStep::Done(_) => panic!("press ended early"),
        }
    }
    assert_eq!(wait_in(PressPhase::Timing), PressWait::PollUntil(LONG_PRESS_DURATION));
    assert_eq!(wait_in(PressPhase::DebouncingPress), PressWait::Sleep(BUTTON_DEBOUNCE_DELAY));
    assert_eq!(press_step(phase, PressEvent::Level { pressed: false }), PressStep::Done(PressDuration::Short));
    assert_eq!(press_step(phase, PressEvent::Elapsed), PressStep::Done(PressDuration::Long));
    assert_eq!(
        press_step(phase, PressEvent::Level { pressed: true }),
        PressStep::Continue(PressPhase::Timing, PressWait::PollUntil(LONG_PRESS_DURATION))
    );
}

#[test]
fn blink_round_follows_command_or_flips() {
    let other = ['A', 'B', 'C', 'D'];
    assert_eq!(BlinkState4Led::BlinkingAndOn.after_round(TEXT, None), (BlinkState4Led::BlinkingButOff, TEXT));
    assert_eq!(BlinkState4Led::BlinkingButOff.after_round(TEXT, None), (BlinkState4Led::BlinkingAndOn, TEXT));
    assert_eq!(
        BlinkState4Led::BlinkingButOff.after_round(TEXT, Some((BlinkState4Led::Solid, other))),
        (BlinkState4Led::Solid, other)
    );
}
