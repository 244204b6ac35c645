//! Decoder for the NEC infrared remote protocol.
//!
//! The receiver task timestamps every edge of the (active-low) receiver output
//! and hands the level and the time since the previous edge to [`feed`], which
//! advances the decoder and reports a [`IrNecEvent::Press`] once a frame with a
//! valid checksum and stop bit has been seen.

use vstd::prelude::*;

verus! {

/// A decoded remote-control event.
#[derive(Copy, Clone, Debug, PartialEq, Eq)]
pub enum IrNecEvent {
    /// A button press: the address and command bytes of the frame.
    Press { addr: u8, cmd: u8 },
}

/// Where the decoder is within an NEC frame.
#[derive(Copy, Clone, Debug, PartialEq, Eq)]
pub enum DecoderState {
    /// Waiting for a leader pulse after a quiet line.
    Idle,
    /// Inside the 9 ms leader pulse.
    LdrLow,
    /// Inside the space that follows the leader pulse.
    LdrHigh,
    /// Inside the mark of bit `n`; `v` holds bits `0..n`.
    BitLow { n: u8, v: u32 },
    /// Inside the space of bit `n`; `v` holds bits `0..n`.
    BitHigh { n: u8, v: u32 },
    /// All 32 bits read and checked; waiting for the final stop mark.
    StopBit { addr: u8, cmd: u8 },
    /// Inside the mark that ends a repeat code.
    RepeatTail,
}

/// Edges closer together than this many µs are glitches and are ignored.
pub const GLITCH: u32 = 120;

/// Minimum quiet time, in µs, before a leader pulse is accepted.
pub const MIN_IDLE: u32 = 5_000;

/// Window, in µs, for the leader mark.
pub const LDR_LOW: (u32, u32) = (7_000, 11_000);

/// Window, in µs, for the leader space of a data frame.
pub const LDR_HIGH: (u32, u32) = (3_500, 5_500);

/// Window, in µs, for the leader space of a repeat code.
pub const REP_HIGH: (u32, u32) = (1_500, 3_000);

/// Window, in µs, for a bit mark (and the stop mark).
pub const BIT_LOW: (u32, u32) = (300, 900);

/// Window, in µs, for the space of a 0 bit.
pub const BIT0_HIGH: (u32, u32) = (250, 900);

/// Window, in µs, for the space of a 1 bit.
pub const BIT1_HIGH: (u32, u32) = (1_000, 2_400);

impl DecoderState {
    /// A bit counter is always below 32.
    pub open spec fn wf(self) -> bool {
        match self {
            DecoderState::BitLow { n, .. } => n < 32,
            DecoderState::BitHigh { n, .. } => n < 32,
            _ => true,
        }
    }
}

/// `x` lies within the closed window `r`.
pub open spec fn in_window(x: u32, r: (u32, u32)) -> bool {
    r.0 <= x <= r.1
}

/// Whether `x` lies within the closed window `r`.
pub fn inr(x: u32, r: (u32, u32)) -> (inside: bool)
    ensures
        inside == in_window(x, r),
{
    x >= r.0 && x <= r.1
}

/// Byte `k` (0 = least significant) of a 32-bit frame.
pub open spec fn frame_byte(f: u32, k: u32) -> u8 {
    ((f >> (8 * k)) & 0xFF) as u8
}

/// The checked `(address, command)` of a 32-bit NEC frame: the second byte must be the
/// complement of the first and the fourth the complement of the third.
pub open spec fn nec_code(f: u32) -> Option<(u8, u8)> {
    if frame_byte(f, 0) ^ frame_byte(f, 1) == 0xFF && frame_byte(f, 2) ^ frame_byte(f, 3) == 0xFF {
        Some((frame_byte(f, 0), frame_byte(f, 2)))
    } else {
        None
    }
}

/// Checks the complement bytes of a 32-bit NEC frame and returns its address and command.
pub fn nec_ok(f: u32) -> (code: Option<(u8, u8)>)
    ensures
        code == nec_code(f),
{
    let a = (f & 0xFF) as u8;
    let an = ((f >> 8) & 0xFF) as u8;
    let c = ((f >> 16) & 0xFF) as u8;
    let cn = ((f >> 24) & 0xFF) as u8;
    assert(f >> (8 * 0u32) == f) by (bit_vector);
    if (a ^ an) == 0xFF && (c ^ cn) == 0xFF {
        Some((a, c))
    } else {
        None
    }
}

/// The decoder's reaction to one edge: the next state, the event it completes (if
/// any), and the last frame that passed its checksum.
pub open spec fn feed_spec(
    state: DecoderState,
    level_low: bool,
    dt: u32,
    last_code: Option<(u8, u8)>,
) -> (DecoderState, Option<IrNecEvent>, Option<(u8, u8)>) {
    if dt < GLITCH {
        (state, None, last_code)
    } else {
        match state {
            DecoderState::Idle => {
                if level_low && dt >= MIN_IDLE {
                    (DecoderState::LdrLow, None, last_code)
                } else {
                    (DecoderState::Idle, None, last_code)
                }
            },
            DecoderState::LdrLow => {
                if !level_low && in_window(dt, LDR_LOW) {
                    (DecoderState::LdrHigh, None, last_code)
                } else {
                    (DecoderState::Idle, None, last_code)
                }
            },
            DecoderState::LdrHigh => {
                if level_low && in_window(dt, LDR_HIGH) {
                    (DecoderState::BitLow { n: 0, v: 0 }, None, last_code)
                } else if level_low && in_window(dt, REP_HIGH) {
                    (DecoderState::RepeatTail, None, last_code)
                } else {
                    (DecoderState::Idle, None, last_code)
                }
            },
            DecoderState::RepeatTail => (DecoderState::Idle, None, last_code),
            DecoderState::BitLow { n, v } => {
                if !level_low && in_window(dt, BIT_LOW) {
                    (DecoderState::BitHigh { n, v }, None, last_code)
                } else {
                    (DecoderState::Idle, None, last_code)
                }
            },
            DecoderState::BitHigh { n, v } => {
                let one = level_low && in_window(dt, BIT1_HIGH);
                let zero = level_low && in_window(dt, BIT0_HIGH);
                if !one && !zero {
                    (DecoderState::Idle, None, last_code)
                } else {
                    let v2 = if one {
                        v | (1u32 << n)
                    } else {
                        v
                    };
                    if n + 1 == 32 {
                        match nec_code(v2) {
                            Some((a, c)) => (
                                DecoderState::StopBit { addr: a, cmd: c },
                                None,
                                Some((a, c)),
                            ),
                            None => (DecoderState::Idle, None, last_code),
                        }
                    } else {
                        (DecoderState::BitLow { n: (n + 1) as u8, v: v2 }, None, last_code)
                    }
                }
            },
            DecoderState::StopBit { addr, cmd } => {
                if !level_low && in_window(dt, BIT_LOW) {
                    (DecoderState::Idle, Some(IrNecEvent::Press { addr, cmd }), last_code)
                } else {
                    (DecoderState::Idle, None, last_code)
                }
            },
        }
    }
}

/// Advances the decoder by one edge of the receiver output.
///
/// `level_low` is the line level after the edge, `dt` the time in µs since the
/// previous edge. Returns the next state, the event this edge completes, and the
/// last frame that passed its checksum.
pub fn feed(
    decoder_state: DecoderState,
    level_low: bool,
    dt: u32,
    last_code: Option<(u8, u8)>,
) -> (result: (DecoderState, Option<IrNecEvent>, Option<(u8, u8)>))
    requires
        decoder_state.wf(),
    ensures
        result == feed_spec(decoder_state, level_low, dt, last_code),
        result.0.wf(),
{
    let mut decoder_state = decoder_state;
    let mut last_code = last_code;
    if dt < GLITCH {
        return (decoder_state, None, last_code);
    }
    match decoder_state {
        DecoderState::Idle => {
            if level_low && dt >= MIN_IDLE {
                decoder_state = DecoderState::LdrLow;
            }
        },
        DecoderState::LdrLow => {
            if !level_low && inr(dt, LDR_LOW) {
                decoder_state = DecoderState::LdrHigh;
            } else {
                decoder_state = DecoderState::Idle;
            }
        },
        DecoderState::LdrHigh => {
            if level_low && inr(dt, LDR_HIGH) {
                decoder_state = DecoderState::BitLow { n: 0, v: 0 };
            } else if level_low && inr(dt, REP_HIGH) {
                decoder_state = DecoderState::RepeatTail;
            } else {
                decoder_state = DecoderState::Idle;
            }
        },
        DecoderState::RepeatTail => {
            decoder_state = DecoderState::Idle;
        },
        DecoderState::BitLow { n, v } => {
            if !level_low && inr(dt, BIT_LOW) {
                decoder_state = DecoderState::BitHigh { n, v };
            } else {
                decoder_state = DecoderState::Idle;
            }
        },
        DecoderState::BitHigh { n, v } => {
            let mut v = v;
            if level_low && inr(dt, BIT1_HIGH) {
                v |= 1u32 << n;
            } else if !(level_low && inr(dt, BIT0_HIGH)) {
                decoder_state = DecoderState::Idle;
                return (decoder_state, None, last_code);
            }
            let n2 = n + 1;
            if n2 == 32 {
                if let Some((a, c)) = nec_ok(v) {
                    last_code = Some((a, c));
                    decoder_state = DecoderState::StopBit { addr: a, cmd: c };
                } else {
                    decoder_state = DecoderState::Idle;
                }
            } else {
                decoder_state = DecoderState::BitLow { n: n2, v };
            }
        },
        DecoderState::StopBit { addr, cmd } => {
            if !level_low && inr(dt, BIT_LOW) {
                decoder_state = DecoderState::Idle;
                return (decoder_state, Some(IrNecEvent::Press { addr, cmd }), last_code);
            } else {
                decoder_state = DecoderState::Idle;
            }
        },
    }
    (decoder_state, None, last_code)
}

// ---------------------------------------------------------------------------
// Whole frames
// ---------------------------------------------------------------------------

/// The decoder fed a whole sequence of `(level_low, dt)` edges: final state, the
/// events in the order they were reported, and the last frame that passed its checksum.
pub open spec fn run_decoder(
    state: DecoderState,
    edges: Seq<(bool, u32)>,
    last_code: Option<(u8, u8)>,
) -> (DecoderState, Seq<IrNecEvent>, Option<(u8, u8)>)
    decreases edges.len(),
{
    if edges.len() == 0 {
        (state, Seq::empty(), last_code)
    } else {
        let step = feed_spec(state, edges[0].0, edges[0].1, last_code);
        let rest = run_decoder(step.0, edges.drop_first(), step.2);
        let reported = match step.1 {
            Some(event) => seq![event],
            None => Seq::empty(),
        };
        (rest.0, reported + rest.1, rest.2)
    }
}

/// The 32-bit NEC frame for `addr` and `cmd`, least significant byte first on the air:
/// address, its complement, command, its complement.
pub open spec fn nec_frame(addr: u8, cmd: u8) -> u32 {
    (addr as u32) | ((!addr) as u32) << 8u32 | (cmd as u32) << 16u32 | ((!cmd) as u32) << 24u32
}

/// Bit `n` of `f` is set.
pub open spec fn frame_bit(f: u32, n: u32) -> bool {
    (f >> n) & 1u32 == 1u32
}

/// Bits `0..n` of `f`.
pub open spec fn low_bits(f: u32, n: u32) -> u32 {
    ((f as u64) & (((1u64 << (n as u64)) - 1u64) as u64)) as u32
}

/// Edge timings of an NEC transmission, in µs: the quiet time before it, the leader mark
/// and space, the mark of each bit (and of the stop bit), and the spaces of a 0 and a 1.
pub struct NecTiming {
    pub idle: u32,
    pub leader_mark: u32,
    pub leader_space: u32,
    pub mark: u32,
    pub zero_space: u32,
    pub one_space: u32,
}

/// Every timing lies within the decoder's window for it.
pub open spec fn timing_ok(timing: NecTiming) -> bool {
    &&& timing.idle >= MIN_IDLE
    &&& in_window(timing.leader_mark, LDR_LOW)
    &&& in_window(timing.leader_space, LDR_HIGH)
    &&& in_window(timing.mark, BIT_LOW)
    &&& in_window(timing.zero_space, BIT0_HIGH)
    &&& in_window(timing.one_space, BIT1_HIGH)
}

/// The nominal NEC timings: a 9 ms leader mark, a 4.5 ms leader space, 562 µs marks, and
/// spaces of 562 µs for a 0 and 1687 µs for a 1, after 10 ms of quiet.
pub open spec fn nominal_timing() -> NecTiming {
    NecTiming {
        idle: 10_000,
        leader_mark: 9_000,
        leader_space: 4_500,
        mark: 562,
        zero_space: 562,
        one_space: 1_687,
    }
}

/// Edges of bits `0..n` of `f`: a mark, then the space of a 1 or of a 0.
pub open spec fn bit_edges(timing: NecTiming, f: u32, n: nat) -> Seq<(bool, u32)>
    decreases n,
{
    if n == 0 {
        Seq::empty()
    } else {
        bit_edges(timing, f, (n - 1) as nat) + seq![
            (false, timing.mark),
            (
                true,
                if frame_bit(f, (n - 1) as u32) {
                    timing.one_space
                } else {
                    timing.zero_space
                },
            ),
        ]
    }
}

/// Edges of a whole NEC transmission of `addr` and `cmd` after a quiet line: the start of
/// the leader mark, its end, the leader space, the 32 bits and the stop mark.
pub open spec fn nec_frame_edges(timing: NecTiming, addr: u8, cmd: u8) -> Seq<(bool, u32)> {
    seq![(true, timing.idle), (false, timing.leader_mark), (true, timing.leader_space)] + bit_edges(
        timing,
        nec_frame(addr, cmd),
        32,
    ) + seq![(false, timing.mark)]
}

proof fn lemma_run_append(
    state: DecoderState,
    a: Seq<(bool, u32)>,
    b: Seq<(bool, u32)>,
    last_code: Option<(u8, u8)>,
)
    ensures
        ({
            let r1 = run_decoder(state, a, last_code);
            let r2 = run_decoder(r1.0, b, r1.2);
            run_decoder(state, a + b, last_code) == (r2.0, r1.1 + r2.1, r2.2)
        }),
    decreases a.len(),
{
    if a.len() == 0 {
        assert(a + b =~= b);
        let r2 = run_decoder(state, b, last_code);
        assert(Seq::<IrNecEvent>::empty() + r2.1 =~= r2.1);
    } else {
        let step = feed_spec(state, a[0].0, a[0].1, last_code);
        assert((a + b)[0] == a[0]);
        assert((a + b).drop_first() =~= a.drop_first() + b);
        lemma_run_append(step.0, a.drop_first(), b, step.2);
        let r1 = run_decoder(state, a, last_code);
        let r2 = run_decoder(r1.0, b, r1.2);
        let reported = match step.1 {
            Some(event) => seq![event],
            None => Seq::<IrNecEvent>::empty(),
        };
        let inner = run_decoder(step.0, a.drop_first(), step.2);
        assert(reported + (inner.1 + r2.1) =~= (reported + inner.1) + r2.1);
    }
}

proof fn lemma_low_bits_step(f: u32, n: u32)
    requires
        n < 32,
    ensures
        frame_bit(f, n) ==> low_bits(f, n) | (1u32 << n) == low_bits(f, (n + 1) as u32),
        !frame_bit(f, n) ==> low_bits(f, n) == low_bits(f, (n + 1) as u32),
{
    assert((f >> n) & 1u32 == 1u32 ==> (((f as u64) & (((1u64 << (n as u64)) - 1u64) as u64)) as u32) | (
    1u32 << n) == (((f as u64) & (((1u64 << ((n + 1) as u32) as u64) - 1u64) as u64)) as u32))
        by (bit_vector)
        requires
            n < 32,
    ;
    assert((f >> n) & 1u32 != 1u32 ==> (((f as u64) & (((1u64 << (n as u64)) - 1u64) as u64)) as u32) == (
    ((f as u64) & (((1u64 << ((n + 1) as u32) as u64) - 1u64) as u64)) as u32)) by (bit_vector)
        requires
            n < 32,
    ;
}

proof fn lemma_two_bit_edges(timing: NecTiming, f: u32, n: u32, last_code: Option<(u8, u8)>)
    requires
        n < 31,
        timing_ok(timing),
    ensures
        run_decoder(
            DecoderState::BitLow { n: n as u8, v: low_bits(f, n) },
            bit_edges(timing, f, (n + 1) as nat).subrange(2 * n as int, 2 * n + 2),
            last_code,
        ) == (
            DecoderState::BitLow { n: (n + 1) as u8, v: low_bits(f, (n + 1) as u32) },
            Seq::<IrNecEvent>::empty(),
            last_code,
        ),
{
    lemma_low_bits_step(f, n);
    lemma_bit_edges_len(timing, f, n as nat);
    let e = bit_edges(timing, f, (n + 1) as nat).subrange(2 * n as int, 2 * n + 2);
    assert(e[0] == (false, timing.mark));
    assert(e.drop_first()[0].0 == true);
    assert(e.drop_first().drop_first().len() == 0);
    reveal_with_fuel(run_decoder, 3);
}

proof fn lemma_bit_edges_len(timing: NecTiming, f: u32, n: nat)
    ensures
        bit_edges(timing, f, n).len() == 2 * n,
        forall|m: nat| m <= n ==> #[trigger] bit_edges(timing, f, m) == bit_edges(timing, f, n).subrange(0, (2 * m) as int),
    decreases n,
{
    if n > 0 {
        lemma_bit_edges_len(timing, f, (n - 1) as nat);
        assert forall|m: nat| m <= n implies #[trigger] bit_edges(timing, f, m) == bit_edges(timing, f, n).subrange(0, (2 * m) as int) by {
            if m < n {
                assert(bit_edges(timing, f, (n - 1) as nat).subrange(0, (2 * m) as int) =~= bit_edges(
                    timing,
                    f,
                    n,
                ).subrange(0, (2 * m) as int));
            } else {
                assert(bit_edges(timing, f, n) =~= bit_edges(timing, f, n).subrange(0, (2 * m) as int));
            }
        }
    }
}

proof fn lemma_bits_prefix(timing: NecTiming, f: u32, n: u32, last_code: Option<(u8, u8)>)
    requires
        n <= 31,
        timing_ok(timing),
    ensures
        run_decoder(DecoderState::BitLow { n: 0, v: 0 }, bit_edges(timing, f, n as nat), last_code) == (
            DecoderState::BitLow { n: n as u8, v: low_bits(f, n) },
            Seq::<IrNecEvent>::empty(),
            last_code,
        ),
    decreases n,
{
    if n == 0 {
        assert(low_bits(f, 0) == 0) by (bit_vector);
    } else {
        let k = (n - 1) as u32;
        lemma_bits_prefix(timing, f, k, last_code);
        lemma_bit_edges_len(timing, f, n as nat);
        let all = bit_edges(timing, f, n as nat);
        let head = bit_edges(timing, f, k as nat);
        let tail = all.subrange(2 * k as int, 2 * k + 2);
        assert(all =~= head + tail);
        lemma_run_append(DecoderState::BitLow { n: 0, v: 0 }, head, tail, last_code);
        lemma_two_bit_edges(timing, f, k, last_code);
        assert(Seq::<IrNecEvent>::empty() + Seq::<IrNecEvent>::empty() =~= Seq::<
            IrNecEvent,
        >::empty());
    }
}

proof fn lemma_nec_frame_code(addr: u8, cmd: u8)
    ensures
        nec_code(nec_frame(addr, cmd)) == Some((addr, cmd)),
        low_bits(nec_frame(addr, cmd), 32) == nec_frame(addr, cmd),
{
    let f = nec_frame(addr, cmd);
    assert(((f >> (8 * 0u32)) & 0xFF) as u8 == addr) by (bit_vector)
        requires
            f == (addr as u32) | ((!addr) as u32) << 8u32 | (cmd as u32) << 16u32 | ((!cmd) as u32)
                << 24u32,
    ;
    assert(((f >> (8 * 1u32)) & 0xFF) as u8 == !addr) by (bit_vector)
        requires
            f == (addr as u32) | ((!addr) as u32) << 8u32 | (cmd as u32) << 16u32 | ((!cmd) as u32)
                << 24u32,
    ;
    assert(((f >> (8 * 2u32)) & 0xFF) as u8 == cmd) by (bit_vector)
        requires
            f == (addr as u32) | ((!addr) as u32) << 8u32 | (cmd as u32) << 16u32 | ((!cmd) as u32)
                << 24u32,
    ;
    assert(((f >> (8 * 3u32)) & 0xFF) as u8 == !cmd) by (bit_vector)
        requires
            f == (addr as u32) | ((!addr) as u32) << 8u32 | (cmd as u32) << 16u32 | ((!cmd) as u32)
                << 24u32,
    ;
    assert(addr ^ !addr == 0xFF) by (bit_vector);
    assert(cmd ^ !cmd == 0xFF) by (bit_vector);
    assert(((f as u64) & (((1u64 << (32u32 as u64)) - 1u64) as u64)) as u32 == f) by (bit_vector);
}

/// Feeding the decoder, from its idle state, the edges of a well-formed NEC transmission
/// of `addr` and `cmd`, at any timings within the decoder's windows, reports exactly one
/// press of `addr` and `cmd` and returns it to idle.
pub proof fn nec_frame_decodes_to_press(timing: NecTiming, addr: u8, cmd: u8, last_code: Option<(u8, u8)>)
    requires
        timing_ok(timing),
    ensures
        run_decoder(DecoderState::Idle, nec_frame_edges(timing, addr, cmd), last_code) == (
            DecoderState::Idle,
            seq![IrNecEvent::Press { addr, cmd }],
            Some((addr, cmd)),
        ),
{
    let f = nec_frame(addr, cmd);
    let leader = seq![(true, timing.idle), (false, timing.leader_mark), (true, timing.leader_space)];
    let bits31 = bit_edges(timing, f, 31);
    let last_bit = bit_edges(timing, f, 32).subrange(62, 64);
    let stop = seq![(false, timing.mark)];
    lemma_bit_edges_len(timing, f, 32);
    assert(bit_edges(timing, f, 32) =~= bits31 + last_bit);
    assert(nec_frame_edges(timing, addr, cmd) =~= leader + (bits31 + (last_bit + stop)));
    reveal_with_fuel(run_decoder, 4);
    let r_leader = run_decoder(DecoderState::Idle, leader, last_code);
    assert(r_leader == (DecoderState::BitLow { n: 0, v: 0 }, Seq::<IrNecEvent>::empty(), last_code));
    lemma_bits_prefix(timing, f, 31, last_code);
    lemma_low_bits_step(f, 31);
    lemma_nec_frame_code(addr, cmd);
    assert(last_bit[0] == (false, timing.mark));
    assert(last_bit.drop_first()[0].0 == true);
    let r_last = run_decoder(
        DecoderState::BitLow { n: 31, v: low_bits(f, 31) },
        last_bit + stop,
        last_code,
    );
    assert((last_bit + stop).drop_first().drop_first() =~= stop);
    assert(r_last == (DecoderState::Idle, seq![IrNecEvent::Press { addr, cmd }], Some((addr, cmd))));
    lemma_run_append(DecoderState::BitLow { n: 0, v: 0 }, bits31, last_bit + stop, last_code);
    lemma_run_append(DecoderState::Idle, leader, bits31 + (last_bit + stop), last_code);
    assert(Seq::<IrNecEvent>::empty() + (Seq::<IrNecEvent>::empty() + seq![
        IrNecEvent::Press { addr, cmd },
    ]) =~= seq![IrNecEvent::Press { addr, cmd }]);
}

/// The nominal timings lie within the decoder's windows, so a transmission at nominal
/// timings decodes too.
pub proof fn nominal_timing_ok()
    ensures
        timing_ok(nominal_timing()),
{
}

} // verus!
