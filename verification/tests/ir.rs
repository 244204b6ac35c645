use device_kit::ir_kepler::{kepler_button_map, kepler_mapping, IrKeplerStatic, KeplerButton};
use device_kit::ir_mapping::ButtonMap;
use device_kit::ir_nec::{feed, inr, nec_ok, DecoderState, IrNecEvent, LDR_LOW};

/// The edges of an NEC frame for `addr`/`cmd`, each as (line low after the edge, µs since
/// the previous edge), starting from a quiet line.
fn frame_edges(addr: u8, cmd: u8) -> Vec<(bool, u32)> {
    let frame: u32 = (addr as u32) | ((!addr as u32) << 8) | ((cmd as u32) << 16) | ((!cmd as u32) << 24);
    let mut edges = vec![(true, 20_000), (false, 9_000), (true, 4_500)];
    for n in 0..32 {
        edges.push((false, 562));
        if (frame >> n) & 1 == 1 {
            edges.push((true, 1_687));
        } else {
            edges.push((true, 562));
        }
    }
    edges.push((false, 562));
    edges
}

fn run(edges: &[(bool, u32)]) -> (DecoderState, Vec<IrNecEvent>, Option<(u8, u8)>) {
    let mut state = DecoderState::Idle;
    let mut last = None;
    let mut events = Vec::new();
    for &(low, dt) in edges {
        let (next, event, code) = feed(state, low, dt, last);
        state = next;
        last = code;
        if let Some(event) = event {
            events.push(event);
        }
    }
    (state, events, last)
}

#[test]
fn window_bounds_are_inclusive() {
    assert!(inr(7_000, LDR_LOW));
    assert!(inr(11_000, LDR_LOW));
    assert!(!inr(6_999, LDR_LOW));
    assert!(!inr(11_001, LDR_LOW));
}

#[test]
fn nec_checksum() {
    assert_eq!(nec_ok(0xBA45_FF00), Some((0x00, 0x45)));
    assert_eq!(nec_ok(0xBA45_FE00), None);
    assert_eq!(nec_ok(0xBB45_FF00), None);
}

#[test]
fn whole_frame_decodes_to_press() {
    let (state, events, last) = run(&frame_edges(0x00, 0x45));
    assert_eq!(state, DecoderState::Idle);
    assert_eq!(events, vec![IrNecEvent::Press { addr: 0x00, cmd: 0x45 }]);
    assert_eq!(last, Some((0x00, 0x45)));
}

#[test]
fn two_frames_give_two_presses() {
    let mut edges = frame_edges(0x12, 0x34);
    edges.extend(frame_edges(0x56, 0x78));
    let (_, events, last) = run(&edges);
    assert_eq!(
        events,
        vec![IrNecEvent::Press { addr: 0x12, cmd: 0x34 }, IrNecEvent::Press { addr: 0x56, cmd: 0x78 }]
    );
    assert_eq!(last, Some((0x56, 0x78)));
}

#[test]
fn glitches_are_ignored() {
    let mut edges = frame_edges(0x01, 0x02);
    edges.insert(10, (false, 50));
    let (_, events, _) = run(&edges);
    assert_eq!(events, vec![IrNecEvent::Press { addr: 0x01, cmd: 0x02 }]);
}

#[test]
fn corrupted_frame_is_dropped() {
    let mut edges = frame_edges(0x01, 0x02);
    // Flip the space of bit 0 from a 1 to a 0.
    edges[4] = (true, 562);
    let (state, events, last) = run(&edges);
    assert!(events.is_empty());
    assert_eq!(last, None);
    assert_eq!(state, DecoderState::Idle);
}

#[test]
fn leader_needs_quiet_line() {
    let (state, _, _) = feed(DecoderState::Idle, true, 4_000, None);
    assert_eq!(state, DecoderState::Idle);
    let (state, _, _) = feed(DecoderState::Idle, true, 5_000, None);
    assert_eq!(state, DecoderState::LdrLow);
}

#[test]
fn repeat_code_reports_nothing_and_keeps_last() {
    let edges = [(true, 20_000), (false, 9_000), (true, 2_250), (false, 562)];
    let mut state = DecoderState::Idle;
    let mut last = Some((1, 2));
    for (i, &(low, dt)) in edges.iter().enumerate() {
        let (next, event, code) = feed(state, low, dt, last);
        assert_eq!(event, None);
        state = next;
        last = code;
        if i == 2 {
            assert_eq!(state, DecoderState::RepeatTail);
        }
    }
    assert_eq!(state, DecoderState::Idle);
    assert_eq!(last, Some((1, 2)));
}

#[test]
fn kepler_remote_lookup() {
    let map = kepler_button_map();
    assert_eq!(map.get(0x0000, 0x45), Some(KeplerButton::Power));
    assert_eq!(map.get(0x0000, 0x16), Some(KeplerButton::Num(0)));
    assert_eq!(map.get(0x0000, 0x4A), Some(KeplerButton::Num(9)));
    assert_eq!(map.get(0x0001, 0x45), None);
    assert_eq!(map.get(0x0000, 0x99), None);
    assert_eq!(kepler_mapping().len(), 21);
    let resources = IrKeplerStatic::new();
    let _inner = resources.inner();
}

#[test]
fn later_pair_wins_and_full_map_drops_new_codes() {
    let pairs = [(1u16, 1u8, 'a'), (2, 2, 'b'), (1, 1, 'c'), (3, 3, 'd')];
    let map: ButtonMap<char, 2> = ButtonMap::new(&pairs);
    assert_eq!(map.get(1, 1), Some('c'));
    assert_eq!(map.get(2, 2), Some('b'));
    assert_eq!(map.get(3, 3), None);
}

#[test]
fn decoded_press_maps_to_button() {
    let (_, events, _) = run(&frame_edges(0x00, 0x09));
    let map = kepler_button_map();
    match events[0] {
        IrNecEvent::Press { addr, cmd } => assert_eq!(map.get(addr as u16, cmd), Some(KeplerButton::Plus)),
    }
}

#[test]
fn frame_at_off_nominal_timings_decodes() {
    let (addr, cmd) = (0xA5u8, 0x3Cu8);
    let frame: u32 = (addr as u32) | ((!addr as u32) << 8) | ((cmd as u32) << 16) | ((!cmd as u32) << 24);
    let mut edges = vec![(true, 20_000), (false, 9_000), (true, 4_500)];
    for n in 0..32 {
        edges.push((false, 560));
        edges.push((true, if (frame >> n) & 1 == 1 { 1_690 } else { 560 }));
    }
    edges.push((false, 560));
    let (state, events, last) = run(&edges);
    assert_eq!(state, DecoderState::Idle);
    assert_eq!(events, vec![IrNecEvent::Press { addr, cmd }]);
    assert_eq!(last, Some((addr, cmd)));
}
