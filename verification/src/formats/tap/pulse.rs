//! **TAPE** pulse signal encoding and decoding.
use vstd::prelude::*;

pub mod consts;
pub mod decoding;
pub mod encoding;

pub use decoding::{PulseDecodeState, PulseDecodeWriter};
pub use encoding::{PulseIterState, ReadEncPulseIter};

use consts::{LEAD_PULSE_LENGTH, SYNC_PULSE1_LENGTH, SYNC_PULSE2_LENGTH};
use decoding::{spec_data_bit, spec_is_data, MIN_LEAD_COUNT};
use encoding::{
    spec_bit_pulse, spec_block_pulses, spec_lead_count, spec_pulses, spec_rotl1,
};

verus! {

/// `b` rotated left by `k` bits.
pub open spec fn spec_rotl(b: u8, k: nat) -> u8
    decreases k,
{
    if k == 0 {
        b
    } else {
        spec_rotl1(spec_rotl(b, (k - 1) as nat))
    }
}

/// The pulses of a byte from pulse number `pulse` on, while the encoder holds `current`.
pub open spec fn spec_byte_pulses(current: u8, pulse: u8) -> Seq<u32>
    decreases 15 - pulse,
{
    if pulse >= 15 {
        seq![spec_bit_pulse(current)]
    } else {
        seq![spec_bit_pulse(current)] + spec_byte_pulses(
            if pulse % 2 == 1 { spec_rotl1(current) } else { current },
            (pulse + 1) as u8,
        )
    }
}

/// The highest bit of `current`.
pub open spec fn spec_top_bit(current: u8) -> u8 {
    current >> 7
}

/// The decoder's byte `g` with the highest bit of the encoder's `current` shifted in.
pub open spec fn spec_push_bit(g: u8, current: u8) -> u8 {
    (g << 1) | (current >> 7)
}

/// The bits of `b` the decoder has gathered after the first `q` pulses of its encoding.
pub open spec fn spec_gathered(b: u8, q: nat) -> u8
    decreases q,
{
    if q == 0 {
        0
    } else if (q - 1) as int % 2 == 0 {
        spec_push_bit(spec_gathered(b, (q - 1) as nat), spec_rotl(b, ((q - 1) as int / 2) as nat))
    } else {
        spec_gathered(b, (q - 1) as nat)
    }
}

/// The encoder emitting the pulse numbered `pulse` of the byte it holds as `current`.
spec fn enc_data(current: u8, pulse: u8) -> encoding::PulseIterState {
    encoding::PulseIterState::Data { current, pulse }
}

/// The decoder in a data transfer.
spec fn dec_data(current: u8, pulse: u8, written: u32) -> PulseDecodeState {
    PulseDecodeState::Data { current, pulse, written }
}

/// `m` lead pulses.
spec fn leads(m: nat) -> Seq<u32> {
    Seq::new(m, |i: int| LEAD_PULSE_LENGTH)
}

/// The pulses of the bytes of `rest`, which follow those of the byte being emitted.
spec fn later_pulses(flag: u8, rest: Seq<u8>) -> Seq<u32> {
    if rest.len() == 0 {
        Seq::empty()
    } else {
        spec_pulses(enc_data(rest[0], 0), flag, rest.drop_first())
    }
}

/// Shifting in the top bits of the eight rotations of `b` rebuilds `b`.
proof fn lemma_gather_rotations(b: u8, r1: u8, r2: u8, r3: u8, r4: u8, r5: u8, r6: u8, r7: u8)
    by (bit_vector)
    requires
        r1 == spec_rotl1(b),
        r2 == spec_rotl1(r1),
        r3 == spec_rotl1(r2),
        r4 == spec_rotl1(r3),
        r5 == spec_rotl1(r4),
        r6 == spec_rotl1(r5),
        r7 == spec_rotl1(r6),
    ensures
        b == spec_push_bit(
            spec_push_bit(
                spec_push_bit(
                    spec_push_bit(
                        spec_push_bit(
                            spec_push_bit(spec_push_bit(spec_push_bit(0, b), r1), r2),
                            r3,
                        ),
                        r4,
                    ),
                    r5,
                ),
                r6,
            ),
            r7,
        ),
{
}

/// All sixteen pulses of a byte gather the whole byte.
proof fn lemma_gathered_byte(b: u8)
    ensures
        spec_gathered(b, 15) == b,
{
    reveal_with_fuel(spec_rotl, 8);
    let r1 = spec_rotl(b, 1);
    let r2 = spec_rotl(b, 2);
    let r3 = spec_rotl(b, 3);
    let r4 = spec_rotl(b, 4);
    let r5 = spec_rotl(b, 5);
    let r6 = spec_rotl(b, 6);
    let r7 = spec_rotl(b, 7);
    lemma_gather_rotations(b, r1, r2, r3, r4, r5, r6, r7);
    reveal_with_fuel(spec_gathered, 16);
}

/// The shifted-in bit is the low bit of the decoder's byte.
proof fn lemma_push_bit_bits(g: u8, current: u8)
    by (bit_vector)
    ensures
        ((g << 1) | (current >> 7)) % 2 == current >> 7,
        current >> 7 == (if current >= 0x80 { 1u8 } else { 0u8 }),
        (0u8 << 1) | (current >> 7) == current >> 7,
{
}

/// The shifted-in bit is the low bit of the decoder's byte, and the one the pulse carries.
proof fn lemma_push_bit_low(g: u8, current: u8)
    ensures
        spec_push_bit(g, current) % 2 == spec_data_bit(spec_bit_pulse(current)),
        spec_top_bit(current) == spec_data_bit(spec_bit_pulse(current)),
        spec_push_bit(0, current) == spec_top_bit(current),
{
    lemma_push_bit_bits(g, current);
}

/// The pulses of a byte emitted from pulse `p` on are followed by those of the remaining bytes.
proof fn lemma_encode_data(current: u8, p: u8, flag: u8, rest: Seq<u8>)
    requires
        p <= 15,
    ensures
        spec_pulses(enc_data(current, p), flag, rest) == spec_byte_pulses(current, p) + later_pulses(
            flag,
            rest,
        ),
    decreases 15 - p,
{
    if p < 15 {
        let next = if p % 2 == 1 { spec_rotl1(current) } else { current };
        lemma_encode_data(next, (p + 1) as u8, flag, rest);
        let tail = later_pulses(flag, rest);
        assert(seq![spec_bit_pulse(current)] + (spec_byte_pulses(next, (p + 1) as u8) + tail)
            =~= (seq![spec_bit_pulse(current)] + spec_byte_pulses(next, (p + 1) as u8)) + tail);
    } else {
        assert(seq![spec_bit_pulse(current)] + Seq::<u32>::empty() =~= seq![spec_bit_pulse(current)]);
    }
}

/// A lead of `c` pulses is followed by the two sync pulses and the pulses of the flag byte.
proof fn lemma_encode_lead(c: u16, flag: u8, rest: Seq<u8>)
    requires
        c >= 1,
    ensures
        spec_pulses((encoding::PulseIterState::Lead { countdown: c }), flag, rest) == leads(c as nat)
            + seq![SYNC_PULSE1_LENGTH, SYNC_PULSE2_LENGTH] + spec_pulses(enc_data(flag, 0), flag, rest),
    decreases c,
{
    let data = spec_pulses(encoding::PulseIterState::Data { current: flag, pulse: 0 }, flag, rest);
    if c == 1 {
        assert(spec_pulses(encoding::PulseIterState::Sync2, flag, rest) == seq![SYNC_PULSE2_LENGTH]
            + data);
        assert(spec_pulses(encoding::PulseIterState::Sync1, flag, rest) == seq![SYNC_PULSE1_LENGTH]
            + (seq![SYNC_PULSE2_LENGTH] + data));
        assert(seq![LEAD_PULSE_LENGTH] + (seq![SYNC_PULSE1_LENGTH] + (seq![SYNC_PULSE2_LENGTH]
            + data)) =~= Seq::new(1, |i: int| LEAD_PULSE_LENGTH) + seq![
            SYNC_PULSE1_LENGTH,
            SYNC_PULSE2_LENGTH,
        ] + data);
    } else {
        lemma_encode_lead((c - 1) as u16, flag, rest);
        assert(seq![LEAD_PULSE_LENGTH] + (Seq::new((c - 1) as nat, |i: int| LEAD_PULSE_LENGTH)
            + seq![SYNC_PULSE1_LENGTH, SYNC_PULSE2_LENGTH] + data) =~= Seq::new(
            c as nat,
            |i: int| LEAD_PULSE_LENGTH,
        ) + seq![SYNC_PULSE1_LENGTH, SYNC_PULSE2_LENGTH] + data);
    }
}

/// Lead pulses only count up the decoder's lead counter.
proof fn lemma_decode_leads(k: u32, m: nat, tail: Seq<u32>)
    requires
        k >= 1,
        k + m <= u32::MAX,
    ensures
        (PulseDecodeState::Lead { counter: k }).spec_decode(leads(m) + tail) == (PulseDecodeState::Lead {
            counter: (k + m) as u32,
        }).spec_decode(tail),
    decreases m,
{
    if m > 0 {
        let pulses = Seq::new(m, |i: int| LEAD_PULSE_LENGTH) + tail;
        assert(pulses[0] == LEAD_PULSE_LENGTH);
        assert(pulses.drop_first() =~= Seq::new((m - 1) as nat, |i: int| LEAD_PULSE_LENGTH) + tail);
        lemma_decode_leads((k + 1) as u32, (m - 1) as nat, tail);
    } else {
        assert(Seq::new(m, |i: int| LEAD_PULSE_LENGTH) + tail =~= tail);
    }
}

/// From the pulse of a byte numbered `q` on, the decoder gathers the byte and writes it.
proof fn lemma_decode_byte(b: u8, q: u8, w: u32, tail: Seq<u32>)
    requires
        q <= 15,
        w < u32::MAX,
    ensures
        dec_data(spec_gathered(b, q as nat), q, w).spec_decode(
            spec_byte_pulses(spec_rotl(b, (q / 2) as nat), q) + tail,
        ) == (dec_data(0, 0, (w + 1) as u32).spec_decode(tail).0, seq![b] + dec_data(
            0,
            0,
            (w + 1) as u32,
        ).spec_decode(tail).1, dec_data(0, 0, (w + 1) as u32).spec_decode(tail).2),
    decreases 15 - q,
{
    let c = spec_rotl(b, (q / 2) as nat);
    let g = spec_gathered(b, q as nat);
    let s = PulseDecodeState::Data { current: g, pulse: q, written: w };
    let pulses = spec_byte_pulses(c, q) + tail;
    let after = PulseDecodeState::Data { current: 0, pulse: 0, written: (w + 1) as u32 }.spec_decode(tail);
    assert(pulses[0] == spec_bit_pulse(c));
    assert(spec_is_data(spec_bit_pulse(c)));
    lemma_push_bit_low(g, c);
    if q % 2 == 1 {
        assert(g == spec_push_bit(spec_gathered(b, (q - 1) as nat), spec_rotl(b, ((q - 1) / 2) as nat)));
        lemma_push_bit_low(spec_gathered(b, (q - 1) as nat), c);
    } else {
        assert(spec_gathered(b, (q + 1) as nat) == spec_push_bit(g, c));
    }
    assert(!s.spec_stops(pulses[0]));
    if q == 15 {
        lemma_gathered_byte(b);
        assert(pulses.drop_first() =~= tail);
        assert(s.spec_emits(pulses[0]) == seq![b]);
    } else {
        let next_c = if q % 2 == 1 { spec_rotl1(c) } else { c };
        assert(next_c == spec_rotl(b, ((q + 1) / 2) as nat));
        assert(pulses.drop_first() =~= spec_byte_pulses(next_c, (q + 1) as u8) + tail);
        assert(s.spec_next(pulses[0]) == PulseDecodeState::Data {
            current: spec_gathered(b, (q + 1) as nat),
            pulse: (q + 1) as u8,
            written: w,
        });
        lemma_decode_byte(b, (q + 1) as u8, w, tail);
        assert(s.spec_emits(pulses[0]) =~= Seq::<u8>::empty());
        assert(Seq::<u8>::empty() + (seq![b] + after.1) =~= seq![b] + after.1);
    }
}

/// The data pulses of the bytes `x` and `rest` make the decoder write these bytes.
proof fn lemma_decode_bytes(x: u8, flag: u8, rest: Seq<u8>, w: u32)
    requires
        w + 1 + rest.len() <= u32::MAX,
    ensures
        dec_data(0, 0, w).spec_decode(spec_pulses(enc_data(x, 0), flag, rest)) == (dec_data(
            0,
            0,
            (w + 1 + rest.len()) as u32,
        ), seq![x] + rest, (None::<u32>)),
    decreases rest.len(),
{
    lemma_encode_data(x, 0, flag, rest);
    let tail = later_pulses(flag, rest);
    assert(spec_gathered(x, 0) == 0);
    assert(spec_rotl(x, 0) == x);
    lemma_decode_byte(x, 0, w, tail);
    if rest.len() == 0 {
        assert(seq![x] + Seq::<u8>::empty() =~= seq![x] + rest);
    } else {
        lemma_decode_bytes(rest[0], flag, rest.drop_first(), (w + 1) as u32);
        assert(seq![x] + (seq![rest[0]] + rest.drop_first()) =~= seq![x] + rest);
    }
}

/// Decoding the pulses that encode a tape block gives the block back: fed the pulses of an
/// encoded block from the idle state, the decoder writes exactly the bytes of the block,
/// stays in the data transfer, and ending that transfer reports the length of the block.
pub proof fn lemma_decode_encoded_block(block: Seq<u8>)
    requires
        0 < block.len() <= u32::MAX,
    ensures
        PulseDecodeState::Idle.spec_decode(spec_block_pulses(block)) == ((PulseDecodeState::Data {
            current: 0,
            pulse: 0,
            written: block.len() as u32,
        }), block, (None::<u32>)),
        (PulseDecodeState::Data { current: 0, pulse: 0, written: block.len() as u32 }).spec_end() == (
        Seq::<u8>::empty(), Some(block.len() as u32)),
{
    let flag = block[0];
    let rest = block.drop_first();
    let c = spec_lead_count(flag);
    let data = spec_pulses(encoding::PulseIterState::Data { current: flag, pulse: 0 }, flag, rest);
    lemma_encode_lead(c, flag, rest);
    let syncs = seq![SYNC_PULSE1_LENGTH, SYNC_PULSE2_LENGTH] + data;
    let leads = Seq::new(c as nat, |i: int| LEAD_PULSE_LENGTH);
    let pulses = spec_block_pulses(block);
    assert(pulses =~= leads + syncs);
    // the first lead pulse leaves the idle state, the others count up
    assert(pulses[0] == LEAD_PULSE_LENGTH);
    assert(pulses.drop_first() =~= Seq::new((c - 1) as nat, |i: int| LEAD_PULSE_LENGTH) + syncs);
    lemma_decode_leads(1, (c - 1) as nat, syncs);
    assert(PulseDecodeState::Idle.spec_decode(pulses) == (PulseDecodeState::Lead { counter: 1 }).spec_decode(
        pulses.drop_first(),
    ));
    assert(PulseDecodeState::Idle.spec_decode(pulses) == (PulseDecodeState::Lead {
        counter: c as u32,
    }).spec_decode(syncs));
    // the two sync pulses
    assert(c >= MIN_LEAD_COUNT);
    assert(syncs[0] == SYNC_PULSE1_LENGTH);
    assert(syncs.drop_first() =~= seq![SYNC_PULSE2_LENGTH] + data);
    assert((seq![SYNC_PULSE2_LENGTH] + data)[0] == SYNC_PULSE2_LENGTH);
    assert((seq![SYNC_PULSE2_LENGTH] + data).drop_first() =~= data);
    assert((PulseDecodeState::Lead { counter: c as u32 }).spec_decode(syncs)
        == PulseDecodeState::Sync1.spec_decode(seq![SYNC_PULSE2_LENGTH] + data));
    assert(PulseDecodeState::Sync1.spec_decode(seq![SYNC_PULSE2_LENGTH] + data)
        == PulseDecodeState::Sync2.spec_decode(data));
    // the first data pulse is taken in the same way as in a transfer that has begun
    lemma_encode_data(flag, 0, flag, rest);
    assert(data[0] == spec_bit_pulse(flag));
    lemma_push_bit_low(0, flag);
    assert(PulseDecodeState::Sync2.spec_decode(data) == PulseDecodeState::Data {
        current: 0,
        pulse: 0,
        written: 0,
    }.spec_decode(data));
    lemma_decode_bytes(flag, flag, rest, 0);
    assert(seq![flag] + rest =~= block);
}

} // verus!
