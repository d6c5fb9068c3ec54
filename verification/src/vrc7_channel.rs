//! One VRC7 FM channel: a modulator and a carrier operator, each with a phase and an envelope.
use vstd::prelude::*;
use vstd::arithmetic::power2::pow2;

verus! {

/// The fifteen built-in instruments, eight register bytes each.
pub const DEFAULT_PATCH_TABLE: [u8; 120] = [
    0x03, 0x21, 0x05, 0x06, 0xE8, 0x81, 0x42, 0x27, // Buzzy Bell
    0x13, 0x41, 0x14, 0x0D, 0xD8, 0xF6, 0x23, 0x12, // Guitar
    0x11, 0x11, 0x08, 0x08, 0xFA, 0xB2, 0x20, 0x12, // Wurly
    0x31, 0x61, 0x0C, 0x07, 0xA8, 0x64, 0x61, 0x27, // Flute
    0x32, 0x21, 0x1E, 0x06, 0xE1, 0x76, 0x01, 0x28, // Clarinet
    0x02, 0x01, 0x06, 0x00, 0xA3, 0xE2, 0xF4, 0xF4, // Synth
    0x21, 0x61, 0x1D, 0x07, 0x82, 0x81, 0x11, 0x07, // Trumpet
    0x23, 0x21, 0x22, 0x17, 0xA2, 0x72, 0x01, 0x17, // Organ
    0x35, 0x11, 0x25, 0x00, 0x40, 0x73, 0x72, 0x01, // Bells
    0xB5, 0x01, 0x0F, 0x0F, 0xA8, 0xA5, 0x51, 0x02, // Vibes
    0x17, 0xC1, 0x24, 0x07, 0xF8, 0xF8, 0x22, 0x12, // Vibraphone
    0x71, 0x23, 0x11, 0x06, 0x65, 0x74, 0x18, 0x16, // Tutti
    0x01, 0x02, 0xD3, 0x05, 0xC9, 0x95, 0x03, 0x02, // Fretless
    0x61, 0x63, 0x0C, 0x00, 0x94, 0xC0, 0x33, 0xF6, // Synth Bass
    0x21, 0x72, 0x0D, 0x00, 0xC1, 0xD5, 0x56, 0x06, // Sweep
];

/// Frequency multipliers (doubled), indexed by the 4-bit MULT field.
pub const MT_LUT: [u32; 16] = [1, 2, 4, 6, 8, 10, 12, 14, 16, 18, 20, 20, 24, 24, 30, 30];

/// Envelope step patterns: four rows of eight, one row per low two bits of the rate.
pub const ADSR_RATE_LUT: [u8; 32] = [
    0, 1, 0, 1, 0, 1, 0, 1, // 4 out of 8
    0, 1, 0, 1, 1, 1, 0, 1, // 5 out of 8
    0, 1, 1, 1, 0, 1, 1, 1, // 6 out of 8
    0, 1, 1, 1, 1, 1, 1, 1, // 7 out of 8
];

#[derive(PartialEq, Eq, Structural, Copy, Clone, Debug)]
pub enum EnvState {
    Damp,
    Attack,
    Decay,
    Sustain,
}

/// The quarter-wave log-sine table and the exponent table that every channel reads.
/// The values fit the chip's 12-bit and 10-bit table widths.
pub open spec fn tables_wf(logsin: Seq<u16>, exp: Seq<u16>) -> bool {
    &&& logsin.len() == 256
    &&& exp.len() == 256
    &&& forall|i: int| 0 <= i < 256 ==> #[trigger] logsin[i] < 0x1000
    &&& forall|i: int| 0 <= i < 256 ==> #[trigger] exp[i] < 0x400
}

/// Log-sine of phase `i` (10 significant bits): the quarter-wave table is read forwards in
/// the first and third quarter, backwards in the second and fourth, and the second half of
/// the wave sets the sign bit 0x8000.
pub open spec fn logsin_value(lut: Seq<u16>, i: usize) -> u16 {
    let quadrant = (i / 256) % 4;
    let index = (i % 256) as int;
    let magnitude = if quadrant == 0 || quadrant == 2 { lut[index] } else { lut[255 - index] };
    if quadrant >= 2 { 0x8000 | magnitude } else { magnitude }
}

/// Exponent of a log-domain value `i`: bits 0..8 select the fraction, bits 8..15 the number
/// of halvings, bit 15 the sign. The magnitude is `2 * (1024 + exp[255 - fraction])`, kept to
/// 16 bits and halved `integral` times; a negative result is the one's complement.
pub open spec fn exp_value(lut: Seq<u16>, i: u16) -> i16 {
    let integral = ((i / 256) % 128) as nat;
    let fraction = (i % 256) as int;
    let magnitude = ((2 * (1024 + lut[255 - fraction])) % 0x10000) / pow2(integral) as int;
    let positive = magnitude as i16;
    if i >= 0x8000 { (-positive - 1) as i16 } else { positive }
}

pub struct Vrc7AudioChannel {
    pub logsin_lut: Vec<u16>,
    pub exp_lut: Vec<u16>,

    pub fnum: u32,
    pub octave: u32,
    pub volume: u16,
    pub instrument_index: u8,

    pub carrier_phase: u32,
    pub modulator_phase: u32,

    // Register $00
    pub modulator_tremolo: bool,
    pub modulator_vibrato: bool,
    pub modulator_sustain_enabled: bool,
    pub modulator_key_scaling: bool,
    pub modulator_multiplier: usize,

    // Register $01
    pub carrier_tremolo: bool,
    pub carrier_vibrato: bool,
    pub carrier_sustain_enabled: bool,
    pub carrier_key_scaling: bool,
    pub carrier_multiplier: usize,

    // Register $02
    pub modulator_key_level_scaling: u8,
    pub modulator_output_level: u16,

    // Register $03
    pub carrier_key_level_scaling: u8,
    pub carrier_rectified: bool,
    pub modulator_rectified: bool,
    pub feedback: u8,

    // Register $04
    pub modulator_attack_rate: u8,
    pub modulator_decay_rate: u8,

    // Register $05
    pub carrier_attack_rate: u8,
    pub carrier_decay_rate: u8,

    // Register $06
    pub modulator_sustain_level: u8,
    pub modulator_release_rate: u8,

    // Register $07
    pub carrier_sustain_level: u8,
    pub carrier_release_rate: u8,

    // Internal state
    pub global_counter: u32,
    pub global_counter_toggled_bits: u32,
    pub carrier_env_level: u8,
    pub carrier_env_state: EnvState,
    pub modulator_env_level: u8,
    pub modulator_env_state: EnvState,

    pub key_on: bool,
    pub sustain_mode: bool,
}

impl Vrc7AudioChannel {
    /// Every register field holds a value of its register's width, phases are 19-bit,
    /// envelope levels are 7-bit, and the tables are well formed.
    pub open spec fn wf(&self) -> bool {
        &&& tables_wf(self.logsin_lut@, self.exp_lut@)
        &&& self.fnum <= 0x1FF
        &&& self.octave <= 7
        &&& self.volume <= 15
        &&& self.carrier_phase <= 0x7FFFF
        &&& self.modulator_phase <= 0x7FFFF
        &&& self.modulator_multiplier <= 15
        &&& self.carrier_multiplier <= 15
        &&& self.modulator_key_level_scaling <= 3
        &&& self.modulator_output_level <= 63
        &&& self.carrier_key_level_scaling <= 3
        &&& self.feedback <= 7
        &&& self.modulator_attack_rate <= 15
        &&& self.modulator_decay_rate <= 15
        &&& self.carrier_attack_rate <= 15
        &&& self.carrier_decay_rate <= 15
        &&& self.modulator_sustain_level <= 15
        &&& self.modulator_release_rate <= 15
        &&& self.carrier_sustain_level <= 15
        &&& self.carrier_release_rate <= 15
        &&& self.carrier_env_level <= 127
        &&& self.modulator_env_level <= 127
    }

    /// The state of a channel at power-on: all registers clear, both operators rectified,
    /// envelopes silent (level 127) in the sustain state, key released.
    pub open spec fn is_power_on(&self) -> bool {
        &&& self.fnum == 0 && self.octave == 0 && self.volume == 0 && self.instrument_index == 0
        &&& self.carrier_phase == 0 && self.modulator_phase == 0
        &&& !self.modulator_tremolo && !self.modulator_vibrato
        &&& !self.modulator_sustain_enabled && !self.modulator_key_scaling
        &&& self.modulator_multiplier == 0
        &&& !self.carrier_tremolo && !self.carrier_vibrato
        &&& !self.carrier_sustain_enabled && !self.carrier_key_scaling
        &&& self.carrier_multiplier == 0
        &&& self.modulator_key_level_scaling == 0 && self.modulator_output_level == 0
        &&& self.carrier_key_level_scaling == 0
        &&& self.carrier_rectified && self.modulator_rectified
        &&& self.feedback == 0
        &&& self.modulator_attack_rate == 0 && self.modulator_decay_rate == 0
        &&& self.carrier_attack_rate == 0 && self.carrier_decay_rate == 0
        &&& self.modulator_sustain_level == 0 && self.modulator_release_rate == 0
        &&& self.carrier_sustain_level == 0 && self.carrier_release_rate == 0
        &&& self.global_counter == 0 && self.global_counter_toggled_bits == 0
        &&& self.carrier_env_level == 127 && self.carrier_env_state == EnvState::Sustain
        &&& self.modulator_env_level == 127 && self.modulator_env_state == EnvState::Sustain
        &&& !self.key_on && !self.sustain_mode
    }

    /// A silent channel that reads its own copies of the two tables.
    pub fn new(logsin_lut: &Vec<u16>, exp_lut: &Vec<u16>) -> (c: Vrc7AudioChannel)
        requires
            tables_wf(logsin_lut@, exp_lut@),
        ensures
            c.wf(),
            c.is_power_on(),
            c.logsin_lut@ == logsin_lut@,
            c.exp_lut@ == exp_lut@,
    {
        let logsin_copy = logsin_lut.clone();
        let exp_copy = exp_lut.clone();
        assert(logsin_copy@ =~= logsin_lut@);
        assert(exp_copy@ =~= exp_lut@);
        Vrc7AudioChannel {
            logsin_lut: logsin_copy,
            exp_lut: exp_copy,

            fnum: 0,
            octave: 0,
            volume: 0,
            instrument_index: 0,

            carrier_phase: 0,
            modulator_phase: 0,

            modulator_tremolo: false,
            modulator_vibrato: false,
            modulator_sustain_enabled: false,
            modulator_key_scaling: false,
            modulator_multiplier: 0,

            carrier_tremolo: false,
            carrier_vibrato: false,
            carrier_sustain_enabled: false,
            carrier_key_scaling: false,
            carrier_multiplier: 0,

            modulator_key_level_scaling: 0,
            modulator_output_level: 0,

            carrier_key_level_scaling: 0,
            carrier_rectified: true,
            modulator_rectified: true,
            feedback: 0,

            modulator_attack_rate: 0,
            modulator_decay_rate: 0,

            carrier_attack_rate: 0,
            carrier_decay_rate: 0,

            modulator_sustain_level: 0,
            modulator_release_rate: 0,

            carrier_sustain_level: 0,
            carrier_release_rate: 0,

            global_counter: 0,
            global_counter_toggled_bits: 0,

            carrier_env_level: 127,
            carrier_env_state: EnvState::Sustain,
            modulator_env_level: 127,
            modulator_env_state: EnvState::Sustain,

            key_on: false,
            sustain_mode: false,
        }
    }

    pub fn lookup_logsin(&self, i: usize) -> (r: u16)
        requires
            self.logsin_lut@.len() >= 256,
        ensures
            r == logsin_value(self.logsin_lut@, i),
    {
        let quadrant = (i & 0x300) >> 8;
        let index = i & 0xFF;
        assert(quadrant == (i / 256) % 4 && index == i % 256 && quadrant < 4 && index < 256)
            by (bit_vector)
            requires quadrant == (i & 0x300) >> 8, index == i & 0xFF;
        match quadrant {
            0 => self.logsin_lut[index],
            1 => self.logsin_lut[255 - index],
            2 => 0x8000 | self.logsin_lut[index],
            _ => 0x8000 | self.logsin_lut[255 - index],
        }
    }

    pub fn lookup_exp(&self, i: u16) -> (r: i16)
        requires
            self.exp_lut@.len() >= 256,
            (i / 256) % 128 < 32,
            self.exp_lut@[255 - (i % 256)] + 1024 <= u16::MAX,
        ensures
            r == exp_value(self.exp_lut@, i),
    {
        let sign = i & 0x8000;
        let integral_magnitude = (i & 0x7F00) >> 8;
        let fractional_magnitude = i & 0x00FF;
        assert(integral_magnitude == (i / 256) % 128 && fractional_magnitude == i % 256
            && (sign != 0 <==> i >= 0x8000)) by (bit_vector)
            requires
                sign == i & 0x8000,
                integral_magnitude == (i & 0x7F00) >> 8,
                fractional_magnitude == i & 0x00FF;
        let entry = self.exp_lut[(255 - fractional_magnitude) as usize];
        let sum: u16 = entry + 1024;
        let doubled: u16 = sum << 1u16;
        assert(doubled == (2 * sum) % 0x10000) by (bit_vector)
            requires doubled == sum << 1u16;
        // The doubled value is non-negative and below 2^16, so the shift is done unsigned.
        let t_value = doubled as u32;
        let shift = integral_magnitude as u32;
        let shifted = t_value >> shift;
        proof {
            vstd::bits::lemma_u32_shr_is_div(t_value, shift);
        }
        let positive_result = shifted as i16;
        if sign != 0 {
            let r = !positive_result;
            assert(r == -positive_result - 1) by (bit_vector)
                requires r == !positive_result;
            r
        } else {
            positive_result
        }
    }

    pub fn clock_global_counter(&mut self)
        ensures
            *final(self) == counter_step(*old(self)),
    {
        let old_value = self.global_counter;
        self.global_counter = self.global_counter.wrapping_add(1);
        self.global_counter_toggled_bits = old_value ^ self.global_counter;
    }
}

/// One tick of the free-running envelope counter; `global_counter_toggled_bits` records
/// which counter bits changed on this tick. The counter wraps past `u32::MAX`.
pub open spec fn counter_step(c: Vrc7AudioChannel) -> Vrc7AudioChannel {
    let next = if c.global_counter == u32::MAX { 0 } else { (c.global_counter + 1) as u32 };
    Vrc7AudioChannel {
        global_counter: next,
        global_counter_toggled_bits: c.global_counter ^ next,
        ..c
    }
}


/// The register fields that a patch (eight instrument bytes) sets on a channel.
pub open spec fn with_patch(c: Vrc7AudioChannel, p: Seq<u8>) -> Vrc7AudioChannel {
    Vrc7AudioChannel {
        modulator_tremolo: p[0] & 0x80 != 0,
        modulator_vibrato: p[0] & 0x40 != 0,
        modulator_sustain_enabled: p[0] & 0x20 != 0,
        modulator_key_scaling: p[0] & 0x10 != 0,
        modulator_multiplier: (p[0] % 16) as usize,
        carrier_tremolo: p[1] & 0x80 != 0,
        carrier_vibrato: p[1] & 0x40 != 0,
        carrier_sustain_enabled: p[1] & 0x20 != 0,
        carrier_key_scaling: p[1] & 0x10 != 0,
        carrier_multiplier: (p[1] % 16) as usize,
        modulator_key_level_scaling: p[2] / 64,
        modulator_output_level: (p[2] % 64) as u16,
        carrier_key_level_scaling: p[3] / 64,
        carrier_rectified: p[3] & 0x10 != 0,
        modulator_rectified: p[3] & 0x08 != 0,
        feedback: p[3] % 8,
        modulator_attack_rate: p[4] / 16,
        modulator_decay_rate: p[4] % 16,
        carrier_attack_rate: p[5] / 16,
        carrier_decay_rate: p[5] % 16,
        modulator_sustain_level: p[6] / 16,
        modulator_release_rate: p[6] % 16,
        carrier_sustain_level: p[7] / 16,
        carrier_release_rate: p[7] % 16,
        ..c
    }
}

/// The rate (0..63) at which an envelope with 4-bit rate `given_rate` moves: 0 and 15 are
/// fixed, otherwise four times the rate plus the key-scaling offset taken from the octave and
/// the top bit of the frequency number (divided by four when key scaling is off).
pub open spec fn effective_rate(octave: u32, fnum: u32, given_rate: u8, ks_enabled: bool) -> u8 {
    if given_rate == 0 {
        0
    } else if given_rate == 15 {
        63
    } else {
        let octave_and_fnum_msb = (octave * 2 + fnum / 256) as u8;
        let rate_ks = if ks_enabled { octave_and_fnum_msb } else { octave_and_fnum_msb / 4 };
        ((given_rate * 4 + rate_ks) % 64) as u8
    }
}

/// Whether an envelope at effective rate `rate` steps on the tick whose changed counter bits
/// are `toggled`: the counter bit selected by the rate's upper bits must have changed, and
/// the step pattern of the rate's lower two bits must be set at the three bits above it.
/// The bit position is `13 - rate / 4`, taken modulo 32 for the rates above 55.
#[verifier::opaque]
pub open spec fn envelope_step_due(toggled: u32, rate: u8) -> bool {
    let shift = ((13 - rate / 4) % 32) as nat;
    let bits = toggled as nat / pow2(shift);
    bits % 2 == 1 && ADSR_RATE_LUT[((rate % 4) * 8 + bits % 8) as int] == 1
}

/// The envelope level after one step: while attacking the level falls by one plus a
/// sixteenth of itself (rates 0 and 15 hold it); otherwise it rises by one, by two for rate
/// 15, and never above 127; rate 0 holds it.
pub open spec fn envelope_level_step(level: u8, rate: u8, attacking: bool) -> u8 {
    if attacking {
        if rate == 0 || rate == 15 { level } else { (level - level / 16 - 1) as u8 }
    } else if rate == 0 {
        level
    } else if rate == 15 {
        if level + 2 > 127 { 127 } else { (level + 2) as u8 }
    } else if level < 127 {
        (level + 1) as u8
    } else {
        level
    }
}

/// State changes of the carrier envelope before its level moves: a damped carrier that has
/// gone silent starts the note (restarting both operators), a finished attack decays, and a
/// decay that reached the sustain level sustains.
pub open spec fn carrier_transition(c: Vrc7AudioChannel) -> Vrc7AudioChannel {
    if c.carrier_env_state == EnvState::Damp && c.carrier_env_level / 4 == 0x1F {
        note_start(c)
    } else if c.carrier_env_state == EnvState::Attack && c.carrier_env_level == 0 {
        Vrc7AudioChannel { carrier_env_state: EnvState::Decay, ..c }
    } else if c.carrier_env_state == EnvState::Decay && c.carrier_env_level / 8 == c.carrier_sustain_level {
        Vrc7AudioChannel { carrier_env_state: EnvState::Sustain, ..c }
    } else {
        c
    }
}

/// A note starts: both operators restart their phase and enter the attack, or go straight
/// to the decay at full volume when their attack rate is 15; the modulator's level resets.
pub open spec fn note_start(c: Vrc7AudioChannel) -> Vrc7AudioChannel {
    Vrc7AudioChannel {
        carrier_env_state: if c.carrier_attack_rate == 15 { EnvState::Decay } else { EnvState::Attack },
        carrier_env_level: if c.carrier_attack_rate == 15 { 0 } else { c.carrier_env_level },
        carrier_phase: 0,
        modulator_env_state: if c.modulator_attack_rate == 15 { EnvState::Decay } else { EnvState::Attack },
        modulator_env_level: if c.modulator_attack_rate == 15 { 0 } else { 127 },
        modulator_phase: 0,
        ..c
    }
}

/// The 4-bit rate that drives the carrier envelope: the release rates while the key is up,
/// otherwise the rate of the current envelope state.
pub open spec fn carrier_rate(c: Vrc7AudioChannel) -> u8 {
    if !c.key_on {
        if c.carrier_sustain_enabled { c.carrier_release_rate } else if c.sustain_mode { 5 } else { 7 }
    } else {
        match c.carrier_env_state {
            EnvState::Damp => 12,
            EnvState::Attack => c.carrier_attack_rate,
            EnvState::Decay => c.carrier_decay_rate,
            EnvState::Sustain => if c.sustain_mode { 0 } else { c.carrier_release_rate },
        }
    }
}

/// One envelope update of the carrier.
pub open spec fn carrier_adsr_step(c: Vrc7AudioChannel) -> Vrc7AudioChannel {
    let c1 = carrier_transition(c);
    let rate = carrier_rate(c1);
    if envelope_step_due(c1.global_counter_toggled_bits,
        effective_rate(c1.octave, c1.fnum, rate, c1.carrier_key_scaling)) {
        Vrc7AudioChannel {
            carrier_env_level: envelope_level_step(c1.carrier_env_level, rate,
                c1.carrier_env_state == EnvState::Attack && c1.key_on),
            ..c1
        }
    } else {
        c1
    }
}

/// State changes of the modulator envelope before its level moves.
pub open spec fn modulator_transition(c: Vrc7AudioChannel) -> Vrc7AudioChannel {
    if c.modulator_env_state == EnvState::Attack && c.modulator_env_level == 0 {
        Vrc7AudioChannel { modulator_env_state: EnvState::Decay, ..c }
    } else if c.modulator_env_state == EnvState::Decay && c.modulator_env_level / 8 == c.modulator_sustain_level {
        Vrc7AudioChannel { modulator_env_state: EnvState::Sustain, ..c }
    } else {
        c
    }
}

/// The 4-bit rate of the modulator's current envelope state.
pub open spec fn modulator_rate(c: Vrc7AudioChannel) -> u8 {
    match c.modulator_env_state {
        EnvState::Damp => 12,
        EnvState::Attack => c.modulator_attack_rate,
        EnvState::Decay => c.modulator_decay_rate,
        EnvState::Sustain => if c.sustain_mode { 0 } else { c.modulator_release_rate },
    }
}

/// One envelope update of the modulator.
pub open spec fn modulator_adsr_step(c: Vrc7AudioChannel) -> Vrc7AudioChannel {
    let c1 = modulator_transition(c);
    let rate = modulator_rate(c1);
    if envelope_step_due(c1.global_counter_toggled_bits,
        effective_rate(c1.octave, c1.fnum, rate, c1.modulator_key_scaling)) {
        Vrc7AudioChannel {
            modulator_env_level: envelope_level_step(c1.modulator_env_level, rate,
                c1.modulator_env_state == EnvState::Attack),
            ..c1
        }
    } else {
        c1
    }
}

/// How far an operator's 19-bit phase advances per update:
/// `fnum * MT[multiplier] * 2^octave / 2`.
pub open spec fn phase_increment(fnum: u32, octave: u32, multiplier: usize) -> int {
    (fnum * MT_LUT[multiplier as int] * pow2(octave as nat)) / 2
}

/// Both operator phases advance, modulo 2^19.
pub open spec fn phase_step(c: Vrc7AudioChannel) -> Vrc7AudioChannel {
    Vrc7AudioChannel {
        carrier_phase: ((c.carrier_phase + phase_increment(c.fnum, c.octave, c.carrier_multiplier)) % 0x80000) as u32,
        modulator_phase: ((c.modulator_phase + phase_increment(c.fnum, c.octave, c.modulator_multiplier)) % 0x80000) as u32,
        ..c
    }
}

/// One full update of a channel: phases, carrier envelope, modulator envelope, counter.
#[verifier::opaque]
pub open spec fn channel_update(c: Vrc7AudioChannel) -> Vrc7AudioChannel {
    counter_step(modulator_adsr_step(carrier_adsr_step(phase_step(c))))
}

/// The key bit of register $2x: a key going from released to pressed damps the carrier
/// (which then restarts both operators); the key state follows the register.
pub open spec fn key_on_step(c: Vrc7AudioChannel, new_key_on: bool) -> Vrc7AudioChannel {
    Vrc7AudioChannel {
        carrier_env_state: if !c.key_on && new_key_on { EnvState::Damp } else { c.carrier_env_state },
        key_on: new_key_on,
        ..c
    }
}

/// Truncating division by 16, as Rust divides signed integers.
pub open spec fn div16_toward_zero(x: i16) -> i16 {
    (if x >= 0 { x / 16 } else { -((-x) / 16) }) as i16
}

/// The sample a channel produces: the modulator (one step behind) is read through the
/// log-sine and exponent tables, attenuated by its output level and envelope; with its
/// lowest bit cleared it offsets the carrier's phase; the carrier is attenuated by the volume
/// and its envelope, and the result is scaled down by 16.
pub open spec fn channel_output(c: Vrc7AudioChannel) -> i16 {
    let effective_mod_phase = if c.modulator_phase == 0 { 0x7FFFFu32 } else { (c.modulator_phase - 1) as u32 };
    let mod_logsin = logsin_value(c.logsin_lut@, (effective_mod_phase / 512) as usize);
    let mod_amount = exp_value(c.exp_lut@,
        (mod_logsin + 32 * c.modulator_output_level + 16 * c.modulator_env_level) as u16) & !1i16;
    let effective_carrier_phase = ((c.carrier_phase / 512 + mod_amount) % 0x80000) as usize;
    div16_toward_zero(exp_value(c.exp_lut@,
        (logsin_value(c.logsin_lut@, effective_carrier_phase) + 128 * c.volume + 16 * c.carrier_env_level) as u16))
}

/// The bit fields of a register byte, as arithmetic.
proof fn lemma_byte_fields(b: u8)
    ensures
        b & 0x0F == b % 16,
        (b & 0xF0) >> 4 == b / 16,
        (b & 0xC0) >> 6 == b / 64,
        b & 0x3F == b % 64,
        b & 0x07 == b % 8,
{
    assert(b & 0x0F == b % 16) by (bit_vector);
    assert((b & 0xF0) >> 4 == b / 16) by (bit_vector);
    assert((b & 0xC0) >> 6 == b / 64) by (bit_vector);
    assert(b & 0x3F == b % 64) by (bit_vector);
    assert(b & 0x07 == b % 8) by (bit_vector);
}

impl Vrc7AudioChannel {
    pub fn load_patch(&mut self, patch: &[u8])
        requires
            patch@.len() >= 8,
        ensures
            *final(self) == with_patch(*old(self), patch@),
    {
        proof {
            lemma_byte_fields(patch@[0]);
            lemma_byte_fields(patch@[1]);
            lemma_byte_fields(patch@[2]);
            lemma_byte_fields(patch@[3]);
            lemma_byte_fields(patch@[4]);
            lemma_byte_fields(patch@[5]);
            lemma_byte_fields(patch@[6]);
            lemma_byte_fields(patch@[7]);
        }
        self.modulator_tremolo         = (patch[0] & 0b1000_0000) != 0;
        self.modulator_vibrato         = (patch[0] & 0b0100_0000) != 0;
        self.modulator_sustain_enabled = (patch[0] & 0b0010_0000) != 0;
        self.modulator_key_scaling     = (patch[0] & 0b0001_0000) != 0;
        self.modulator_multiplier      = (patch[0] & 0b0000_1111) as usize;

        self.carrier_tremolo         = (patch[1] & 0b1000_0000) != 0;
        self.carrier_vibrato         = (patch[1] & 0b0100_0000) != 0;
        self.carrier_sustain_enabled = (patch[1] & 0b0010_0000) != 0;
        self.carrier_key_scaling     = (patch[1] & 0b0001_0000) != 0;
        self.carrier_multiplier      = (patch[1] & 0b0000_1111) as usize;

        self.modulator_key_level_scaling = (patch[2] & 0b1100_0000) >> 6;
        self.modulator_output_level      = (patch[2] & 0b0011_1111) as u16;

        self.carrier_key_level_scaling = (patch[3] & 0b1100_0000) >> 6;
        self.carrier_rectified         = (patch[3] & 0b0001_0000) != 0;
        self.modulator_rectified       = (patch[3] & 0b0000_1000) != 0;
        self.feedback                  =  patch[3] & 0b0000_0111;

        self.modulator_attack_rate = (patch[4] & 0b1111_0000) >> 4;
        self.modulator_decay_rate  =  patch[4] & 0b0000_1111;

        self.carrier_attack_rate = (patch[5] & 0b1111_0000) >> 4;
        self.carrier_decay_rate  =  patch[5] & 0b0000_1111;

        self.modulator_sustain_level = (patch[6] & 0b1111_0000) >> 4;
        self.modulator_release_rate  =  patch[6] & 0b0000_1111;

        self.carrier_sustain_level = (patch[7] & 0b1111_0000) >> 4;
        self.carrier_release_rate  =  patch[7] & 0b0000_1111;
    }

    fn effective_rate(&self, given_rate: u8, ks_enabled: bool) -> (r: u8)
        requires
            self.wf(),
            given_rate <= 15,
        ensures
            r == effective_rate(self.octave, self.fnum, given_rate, ks_enabled),
            r <= 63,
    {
        // effective rates 0..3 and 60..63 are special cases
        if given_rate == 0 {
            return 0;
        }
        if given_rate == 15 {
            return 63;
        }

        let octave = self.octave;
        let fnum = self.fnum;
        assert(octave << 1 == octave * 2 && fnum >> 8 == fnum / 256) by (bit_vector)
            requires octave <= 7;
        let octave_and_fnum_msb = ((octave << 1) + (fnum >> 8)) as u8;
        let rate_ks = if ks_enabled {
            octave_and_fnum_msb
        } else {
            octave_and_fnum_msb >> 2
        };
        assert(octave_and_fnum_msb >> 2 == octave_and_fnum_msb / 4) by (bit_vector);

        let result = given_rate * 4 + rate_ks;
        assert(result & 63 == result % 64) by (bit_vector);
        result & 63
    }

    fn shall_we_advance_the_adsr_today(&self, given_rate: u8, ks_enabled: bool) -> (r: bool)
        requires
            self.wf(),
            given_rate <= 15,
        ensures
            r == envelope_step_due(self.global_counter_toggled_bits,
                effective_rate(self.octave, self.fnum, given_rate, ks_enabled)),
    {
        reveal(envelope_step_due);
        let rate = self.effective_rate(given_rate, ks_enabled);
        // Past rate 55 the bit position wraps below zero; the shift then wraps modulo 32.
        let shift_amount = 13u8.wrapping_sub(rate / 4);
        assert(rate & 0x3 == rate % 4) by (bit_vector);
        let table_index = ((rate & 0x3) * 8) as usize;

        let shift = (shift_amount as u32) % 32;
        assert(shift == (13 - rate / 4) % 32);
        let toggled = self.global_counter_toggled_bits;
        let shifted_toggled_bits = toggled.wrapping_shr(shift_amount as u32);
        proof {
            vstd::bits::lemma_u32_shr_is_div(toggled, shift);
        }
        let low_bit = shifted_toggled_bits & 0x1;
        let row_index = (shifted_toggled_bits & 0x7) as usize;
        assert(low_bit == shifted_toggled_bits % 2 && shifted_toggled_bits & 0x7 == shifted_toggled_bits % 8)
            by (bit_vector) requires low_bit == shifted_toggled_bits & 0x1;
        if low_bit != 0 {
            if ADSR_RATE_LUT[table_index + row_index] == 1 {
                return true;
            }
        }
        false
    }
}

/// The level change shared by both envelopes, as one step of the rules in
/// `envelope_level_step`.
fn next_envelope_level(level: u8, rate: u8, attacking: bool) -> (r: u8)
    requires
        level <= 127,
        attacking && rate != 0 && rate != 15 ==> level > 0,
    ensures
        r == envelope_level_step(level, rate, attacking),
        r <= 127,
{
    let mut env_level = level;
    if attacking {
        if (rate == 0) || (rate == 15) {
            // Do absolutely nothing. An attack of 0 produces no effect.
            // An attack of 15 is usually instantly transitioned to decay before we
            // get here, but if the custom patch is changed after a key_on event, this
            // is the behavior to apply.
        } else {
            assert(env_level >> 4 == env_level / 16) by (bit_vector);
            env_level = env_level - (env_level >> 4) - 1;
        }
    } else {
        if rate == 0 {
            // Do absolutely nothing
        } else if rate == 15 {
            // Increase the envelope two times (capping at 127)
            env_level += 2;
            if env_level > 127 {
                env_level = 127;
            }
        } else if env_level < 127 {
            // Increase the envelope just once (usual case)
            env_level += 1;
        }
    }
    env_level
}

impl Vrc7AudioChannel {
    fn start_note(&mut self)
        ensures
            *final(self) == note_start(*old(self)),
    {
        let carrier_instant = self.carrier_attack_rate == 15;
        self.carrier_env_state = if carrier_instant { EnvState::Decay } else { EnvState::Attack };
        self.carrier_env_level = if carrier_instant { 0 } else { self.carrier_env_level };
        self.carrier_phase = 0;

        // Also reset the modulator here
        let modulator_instant = self.modulator_attack_rate == 15;
        self.modulator_env_state = if modulator_instant { EnvState::Decay } else { EnvState::Attack };
        self.modulator_env_level = if modulator_instant { 0 } else { 127 };
        self.modulator_phase = 0;
    }

    fn carrier_transition(&mut self)
        requires
            old(self).wf(),
        ensures
            *final(self) == carrier_transition(*old(self)),
    {
        let level = self.carrier_env_level;
        assert(level >> 2 == level / 4 && level >> 3 == level / 8) by (bit_vector);
        let max_env = (self.carrier_env_level >> 2) == 0x1F;
        if self.carrier_env_state == EnvState::Damp && max_env {
            self.start_note();
        } else {
            let state = self.carrier_env_state;
            self.carrier_env_state = if state == EnvState::Attack && level == 0 {
                EnvState::Decay
            } else if state == EnvState::Decay && (level >> 3) == self.carrier_sustain_level {
                EnvState::Sustain
            } else {
                state
            };
        }
    }

    fn carrier_rate(&self) -> (rate: u8)
        requires
            self.wf(),
        ensures
            rate == carrier_rate(*self),
            rate <= 15,
    {
        if self.key_on == false {
            // release state
            if self.carrier_sustain_enabled {
                self.carrier_release_rate
            } else if self.sustain_mode {
                5
            } else {
                7
            }
        } else {
            match self.carrier_env_state {
                EnvState::Damp => 12,
                EnvState::Attack => self.carrier_attack_rate,
                EnvState::Decay => self.carrier_decay_rate,
                EnvState::Sustain => {
                    if self.sustain_mode { 0 } else { self.carrier_release_rate }
                },
            }
        }
    }

    fn update_carrier_adsr(&mut self)
        requires
            old(self).wf(),
        ensures
            *final(self) == carrier_adsr_step(*old(self)),
    {
        self.carrier_transition();
        proof {
            lemma_carrier_transition_wf(*old(self));
        }
        let rate = self.carrier_rate();
        if self.shall_we_advance_the_adsr_today(rate, self.carrier_key_scaling) {
            let attacking = self.carrier_env_state == EnvState::Attack && self.key_on == true;
            self.carrier_env_level = next_envelope_level(self.carrier_env_level, rate, attacking);
        }
    }

    fn modulator_transition(&mut self)
        requires
            old(self).wf(),
        ensures
            *final(self) == modulator_transition(*old(self)),
    {
        let level = self.modulator_env_level;
        assert(level >> 3 == level / 8) by (bit_vector);
        if self.modulator_env_state == EnvState::Attack && self.modulator_env_level == 0 {
            self.modulator_env_state = EnvState::Decay;
        } else if self.modulator_env_state == EnvState::Decay && ((self.modulator_env_level >> 3) == self.modulator_sustain_level) {
            self.modulator_env_state = EnvState::Sustain;
        }
    }

    fn modulator_rate(&self) -> (rate: u8)
        requires
            self.wf(),
        ensures
            rate == modulator_rate(*self),
            rate <= 15,
    {
        match self.modulator_env_state {
            EnvState::Damp => 12,
            EnvState::Attack => self.modulator_attack_rate,
            EnvState::Decay => self.modulator_decay_rate,
            EnvState::Sustain => {
                if self.sustain_mode { 0 } else { self.modulator_release_rate }
            },
        }
    }

    fn update_modulator_adsr(&mut self)
        requires
            old(self).wf(),
        ensures
            *final(self) == modulator_adsr_step(*old(self)),
    {
        self.modulator_transition();
        proof {
            lemma_modulator_transition_wf(*old(self));
        }
        let rate = self.modulator_rate();
        if self.shall_we_advance_the_adsr_today(rate, self.modulator_key_scaling) {
            let attacking = self.modulator_env_state == EnvState::Attack;
            self.modulator_env_level = next_envelope_level(self.modulator_env_level, rate, attacking);
        }
    }

    fn handle_key_on(&mut self, new_key_on: bool)
        ensures
            *final(self) == key_on_step(*old(self), new_key_on),
    {
        // Transition from 0 -> 1 triggers a new note event
        if self.key_on == false && new_key_on == true {
            // Note: carrier will set modulator state when switching from damp -> attack
            self.carrier_env_state = EnvState::Damp;
        }

        self.key_on = new_key_on;
    }
}


proof fn lemma_carrier_transition_wf(c: Vrc7AudioChannel)
    requires
        c.wf(),
    ensures
        carrier_transition(c).wf(),
        carrier_transition(c).carrier_env_state == EnvState::Attack
            ==> carrier_transition(c).carrier_env_level > 0,
{
}

proof fn lemma_modulator_transition_wf(c: Vrc7AudioChannel)
    requires
        c.wf(),
    ensures
        modulator_transition(c).wf(),
        modulator_transition(c).modulator_env_state == EnvState::Attack
            ==> modulator_transition(c).modulator_env_level > 0,
{
}

proof fn lemma_envelope_level_step_bound(level: u8, rate: u8, attacking: bool)
    requires
        level <= 127,
        attacking && rate != 0 && rate != 15 ==> level > 0,
    ensures
        envelope_level_step(level, rate, attacking) <= 127,
{
}

/// A carrier envelope update keeps both envelope levels within 127 and every register within
/// its width.
pub proof fn lemma_carrier_adsr_step_wf(c: Vrc7AudioChannel)
    requires
        c.wf(),
    ensures
        carrier_adsr_step(c).wf(),
{
    lemma_carrier_transition_wf(c);
    let c1 = carrier_transition(c);
    lemma_envelope_level_step_bound(c1.carrier_env_level, carrier_rate(c1),
        c1.carrier_env_state == EnvState::Attack && c1.key_on);
}

/// A modulator envelope update keeps both envelope levels within 127 and every register
/// within its width.
pub proof fn lemma_modulator_adsr_step_wf(c: Vrc7AudioChannel)
    requires
        c.wf(),
    ensures
        modulator_adsr_step(c).wf(),
{
    lemma_modulator_transition_wf(c);
    let c1 = modulator_transition(c);
    lemma_envelope_level_step_bound(c1.modulator_env_level, modulator_rate(c1),
        c1.modulator_env_state == EnvState::Attack);
}

/// The phase increment computed with shifts, as the spec states it with powers of two.
proof fn lemma_phase_increment(fnum: u32, octave: u32, multiplier: usize)
    requires
        fnum <= 0x1FF,
        octave <= 7,
        multiplier <= 15,
    ensures
        fnum * MT_LUT[multiplier as int] <= 15330,
        (((fnum * MT_LUT[multiplier as int]) as u32) << octave) >> 1u32
            == phase_increment(fnum, octave, multiplier),
        phase_increment(fnum, octave, multiplier) <= 981120,
{
    let m = MT_LUT[multiplier as int];
    assert(m <= 30);
    assert(fnum * m <= 511 * 30) by (nonlinear_arith)
        requires fnum <= 511, m <= 30;
    let x = (fnum * m) as u32;
    vstd::arithmetic::power2::lemma2_to64();
    let p = pow2(octave as nat);
    assert(p <= 128) by {
        if octave < 7 {
            vstd::arithmetic::power2::lemma_pow2_strictly_increases(octave as nat, 7);
        }
    }
    assert(x * p <= 15330 * 128) by (nonlinear_arith)
        requires x <= 15330, p <= 128;
    vstd::bits::lemma_u32_shl_is_mul(x, octave);
    let shifted = x << octave;
    vstd::bits::lemma_u32_shr_is_div(shifted, 1u32);
    assert(pow2(1) == 2);
}

/// The log-sine table read at any phase gives a 12-bit magnitude, with the sign bit set in
/// the second half of the wave.
proof fn lemma_logsin_value_range(lut: Seq<u16>, exp: Seq<u16>, i: usize)
    requires
        tables_wf(lut, exp),
    ensures
        logsin_value(lut, i) < 0x1000 || 0x8000 <= logsin_value(lut, i) < 0x9000,
{
    let quadrant = (i / 256) % 4;
    let index = (i % 256) as int;
    let magnitude = if quadrant == 0 || quadrant == 2 { lut[index] } else { lut[255 - index] };
    assert(magnitude < 0x1000);
    assert(magnitude < 0x1000 ==> 0x8000 | magnitude == 0x8000 + magnitude) by (bit_vector);
}

/// A log-domain value below 2^12, possibly with the sign bit, plus attenuations below 2^12,
/// keeps fewer than 32 halvings and fits in 16 bits.
proof fn lemma_attenuated_argument(v: u16, attenuation: int)
    requires
        v < 0x1000 || 0x8000 <= v < 0x9000,
        0 <= attenuation < 0x1000,
    ensures
        v + attenuation <= u16::MAX,
        ((v + attenuation) as u16 / 256) % 128 < 32,
        ((v + attenuation) as u16 % 256) == (v + attenuation) % 256,
        ((v + attenuation) as u16 >= 0x8000) == (v >= 0x8000),
{
}

/// The exponent table gives magnitudes below 4095.
proof fn lemma_exp_value_range(lut: Seq<u16>, exp: Seq<u16>, i: u16)
    requires
        tables_wf(lut, exp),
    ensures
        -4095 <= exp_value(exp, i) <= 4094,
{
    let integral = ((i / 256) % 128) as nat;
    let fraction = (i % 256) as int;
    let numerator = (2 * (1024 + exp[255 - fraction])) % 0x10000;
    assert(exp[255 - fraction] < 0x400);
    assert(numerator <= 4094);
    vstd::arithmetic::power2::lemma_pow2_pos(integral);
    let d = pow2(integral) as int;
    assert(numerator / d <= numerator) by (nonlinear_arith)
        requires d >= 1, numerator >= 0;
    assert(numerator / d >= 0) by (nonlinear_arith)
        requires d >= 1, numerator >= 0;
}

impl Vrc7AudioChannel {
    fn advance_phases(&mut self)
        requires
            old(self).wf(),
        ensures
            *final(self) == phase_step(*old(self)),
    {
        let fnum = self.fnum;
        let octave = self.octave;
        proof {
            lemma_phase_increment(fnum, octave, self.carrier_multiplier);
            lemma_phase_increment(fnum, octave, self.modulator_multiplier);
        }
        let carrier_step_size = ((self.fnum * MT_LUT[self.carrier_multiplier]) << self.octave) >> 1;
        let carrier_sum = self.carrier_phase + carrier_step_size;
        assert(carrier_sum & 0x7FFFF == carrier_sum % 0x80000) by (bit_vector);
        self.carrier_phase = carrier_sum & 0x7FFFF;

        let modulator_step_size = ((self.fnum * MT_LUT[self.modulator_multiplier]) << self.octave) >> 1;
        let modulator_sum = self.modulator_phase + modulator_step_size;
        assert(modulator_sum & 0x7FFFF == modulator_sum % 0x80000) by (bit_vector);
        self.modulator_phase = modulator_sum & 0x7FFFF;
    }

    /// Advances both operator phases, runs both envelopes and ticks the envelope counter.
    pub fn update(&mut self)
        requires
            old(self).wf(),
        ensures
            final(self).wf(),
            *final(self) == channel_update(*old(self)),
    {
        proof {
            reveal(channel_update);
        }
        self.advance_phases();
        let ghost stepped = *self;
        self.update_carrier_adsr();
        proof {
            lemma_carrier_adsr_step_wf(stepped);
        }
        let ghost carried = *self;
        self.update_modulator_adsr();
        proof {
            lemma_modulator_adsr_step_wf(carried);
        }
        self.clock_global_counter();
    }

    /// The channel's current sample, between -255 and 255.
    pub fn output(&self) -> (r: i16)
        requires
            self.wf(),
        ensures
            r == channel_output(*self),
            -255 <= r <= 255,
    {
        let ghost logsin = self.logsin_lut@;
        let ghost exp = self.exp_lut@;
        let phase = self.modulator_phase;
        let effective_mod_phase = phase.wrapping_sub(1) & 0x7FFFF;
        assert(effective_mod_phase == if phase == 0 { 0x7FFFFu32 } else { (phase - 1) as u32 }
            && effective_mod_phase >> 9 == effective_mod_phase / 512) by (bit_vector)
            requires
                phase <= 0x7FFFF,
                effective_mod_phase == (if phase == 0 { 0xFFFF_FFFFu32 } else { (phase - 1) as u32 }) & 0x7FFFF;
        let mod_logsin = self.lookup_logsin((effective_mod_phase >> 9) as usize);
        proof {
            lemma_logsin_value_range(logsin, exp, (effective_mod_phase >> 9) as usize);
            lemma_attenuated_argument(mod_logsin,
                32 * self.modulator_output_level + 16 * self.modulator_env_level);
        }
        let mod_argument = mod_logsin + 32 * self.modulator_output_level + 16 * self.modulator_env_level as u16;
        let mod_exp = self.lookup_exp(mod_argument);
        proof {
            lemma_exp_value_range(logsin, exp, mod_argument);
        }
        let mod_amount = mod_exp & !0x1; // mask lowest bit
        assert(-4096 <= mod_amount <= 4094) by (bit_vector)
            requires mod_amount == mod_exp & !0x1i16, -4095 <= mod_exp <= 4094;
        let ghost cp = self.carrier_phase;
        assert(cp >> 9 == cp / 512) by (bit_vector);
        let carrier_position = ((self.carrier_phase >> 9) as i32) + (mod_amount as i32);
        let masked = carrier_position & 0x7FFFF;
        if carrier_position >= 0 {
            assert(masked == carrier_position % 0x80000) by (bit_vector)
                requires masked == carrier_position & 0x7FFFF, carrier_position >= 0;
        } else {
            assert(masked == carrier_position + 0x80000) by (bit_vector)
                requires masked == carrier_position & 0x7FFFF, -4096 <= carrier_position < 0;
        }
        let effective_carrier_phase = masked as usize;
        let carrier_logsin = self.lookup_logsin(effective_carrier_phase);
        proof {
            lemma_logsin_value_range(logsin, exp, effective_carrier_phase);
            lemma_attenuated_argument(carrier_logsin, 128 * self.volume + 16 * self.carrier_env_level);
        }
        let carrier_argument = carrier_logsin + 128 * self.volume + 16 * self.carrier_env_level as u16;
        let carrier_exp = self.lookup_exp(carrier_argument);
        proof {
            lemma_exp_value_range(logsin, exp, carrier_argument);
        }
        carrier_exp / 16
    }
}

/// Register $1x: the low eight bits of the frequency number.
pub open spec fn fnum_low_written(c: Vrc7AudioChannel, data: u8) -> Vrc7AudioChannel {
    Vrc7AudioChannel { fnum: (c.fnum / 256 * 256 + data) as u32, ..c }
}

/// Register $2x: the frequency number's top bit (bit 0), the octave (bits 1..3), the key
/// (bit 4) and the sustain mode (bit 5).
pub open spec fn fnum_high_written(c: Vrc7AudioChannel, data: u8) -> Vrc7AudioChannel {
    let c1 = Vrc7AudioChannel {
        fnum: (c.fnum % 256 + (data % 2) * 256) as u32,
        octave: ((data / 2) % 8) as u32,
        ..c
    };
    Vrc7AudioChannel { sustain_mode: data & 0x20 != 0, ..key_on_step(c1, data & 0x10 != 0) }
}

/// The eight patch bytes of instrument `instrument` (1..15) from the built-in table.
pub open spec fn default_patch(instrument: int) -> Seq<u8> {
    DEFAULT_PATCH_TABLE@.subrange((instrument - 1) * 8, (instrument - 1) * 8 + 8)
}

/// Register $3x: the volume (low nibble) and the instrument (high nibble); instrument 0 is
/// the custom patch, the others come from the built-in table.
pub open spec fn instrument_written(c: Vrc7AudioChannel, data: u8, custom_patch: Seq<u8>) -> Vrc7AudioChannel {
    let instrument = data / 16;
    let patch = if instrument == 0 { custom_patch } else { default_patch(instrument as int) };
    with_patch(Vrc7AudioChannel { volume: (data % 16) as u16, ..c }, patch)
}

/// A channel after the custom patch changed: channels on instrument 0 reload it.
pub open spec fn refreshed(c: Vrc7AudioChannel, custom_patch: Seq<u8>) -> Vrc7AudioChannel {
    if c.instrument_index == 0 { with_patch(c, custom_patch) } else { c }
}

proof fn lemma_with_patch_wf(c: Vrc7AudioChannel, p: Seq<u8>)
    requires
        c.wf(),
        p.len() >= 8,
    ensures
        with_patch(c, p).wf(),
{
}

fn default_patch_bytes(instrument: usize) -> (p: [u8; 8])
    requires
        1 <= instrument <= 15,
    ensures
        p@ == default_patch(instrument as int),
{
    let i = (instrument - 1) * 8;
    let p = [
        DEFAULT_PATCH_TABLE[i], DEFAULT_PATCH_TABLE[i + 1], DEFAULT_PATCH_TABLE[i + 2],
        DEFAULT_PATCH_TABLE[i + 3], DEFAULT_PATCH_TABLE[i + 4], DEFAULT_PATCH_TABLE[i + 5],
        DEFAULT_PATCH_TABLE[i + 6], DEFAULT_PATCH_TABLE[i + 7],
    ];
    assert(p@ =~= default_patch(instrument as int));
    p
}

impl Vrc7AudioChannel {
    pub(crate) fn write_fnum_low(&mut self, data: u8)
        requires
            old(self).wf(),
        ensures
            *final(self) == fnum_low_written(*old(self), data),
    {
        let fnum = self.fnum;
        assert(fnum & 0xFF00 == fnum / 256 * 256) by (bit_vector)
            requires fnum <= 0x1FF;
        self.fnum = (self.fnum & 0xFF00) + (data as u32);
    }

    pub(crate) fn write_fnum_high(&mut self, data: u8)
        requires
            old(self).wf(),
        ensures
            *final(self) == fnum_high_written(*old(self), data),
    {
        let fnum = self.fnum;
        assert(fnum & 0x00FF == fnum % 256) by (bit_vector);
        assert(((data & 0b1) as u32) << 8 == (data % 2) * 256 && (data & 0b1110) >> 1 == (data / 2) % 8)
            by (bit_vector);
        self.fnum = (self.fnum & 0x00FF) + (((data & 0b1) as u32) << 8);
        self.octave = ((data & 0b1110) >> 1) as u32;
        self.handle_key_on((data & 0b1_0000) != 0);
        self.sustain_mode = (data & 0b10_0000) != 0;
    }

    pub(crate) fn write_instrument(&mut self, data: u8, custom_patch: &[u8; 8])
        requires
            old(self).wf(),
        ensures
            *final(self) == instrument_written(*old(self), data, custom_patch@),
    {
        assert(data & 0xF == data % 16 && (data & 0xF0) >> 4 == data / 16) by (bit_vector);
        self.volume = (data & 0xF) as u16;
        let instrument_index = ((data & 0xF0) >> 4) as usize;
        if instrument_index == 0 {
            self.load_patch(custom_patch.as_slice());
        } else {
            let patch = default_patch_bytes(instrument_index);
            self.load_patch(patch.as_slice());
        }
    }
}

impl Vrc7AudioChannel {
    /// Reloads the custom patch if this channel plays instrument 0.
    pub(crate) fn refresh_patch(&mut self, custom_patch: &[u8; 8])
        ensures
            *final(self) == refreshed(*old(self), custom_patch@),
    {
        if self.instrument_index == 0 {
            self.load_patch(custom_patch.as_slice());
        }
    }
}

/// A channel update keeps every field within its register's width.
pub proof fn lemma_channel_update_wf(c: Vrc7AudioChannel)
    requires
        c.wf(),
    ensures
        channel_update(c).wf(),
{
    reveal(channel_update);
    lemma_carrier_adsr_step_wf(phase_step(c));
    lemma_modulator_adsr_step_wf(carrier_adsr_step(phase_step(c)));
}

/// Register writes keep every field within its register's width.
pub proof fn lemma_register_writes_wf(c: Vrc7AudioChannel, data: u8, custom_patch: Seq<u8>)
    requires
        c.wf(),
        custom_patch.len() >= 8,
    ensures
        fnum_low_written(c, data).wf(),
        fnum_high_written(c, data).wf(),
        instrument_written(c, data, custom_patch).wf(),
        refreshed(c, custom_patch).wf(),
{
    assert(data % 2 <= 1);
    let instrument = data / 16;
    if instrument != 0 {
        lemma_with_patch_wf(Vrc7AudioChannel { volume: (data % 16) as u16, ..c }, default_patch(instrument as int));
    } else {
        lemma_with_patch_wf(Vrc7AudioChannel { volume: (data % 16) as u16, ..c }, custom_patch);
    }
    lemma_with_patch_wf(c, custom_patch);
}

/// The log-sine lookup follows the sine's symmetries: the second quarter mirrors the first,
/// the second half repeats the first with the sign bit set, and the wave repeats every
/// 1024 phase steps.
pub proof fn lemma_logsin_symmetry(lut: Seq<u16>, k: usize)
    requires
        k < 0x100,
    ensures
        logsin_value(lut, (0x100 + k) as usize) == logsin_value(lut, (0xFF - k) as usize),
        logsin_value(lut, (0x200 + k) as usize) == 0x8000 | logsin_value(lut, k),
        logsin_value(lut, (0x300 + k) as usize) == 0x8000 | logsin_value(lut, (0x100 + k) as usize),
        forall|i: usize| i + 0x400 <= usize::MAX ==>
            #[trigger] logsin_value(lut, (i + 0x400) as usize) == logsin_value(lut, i),
{
}

/// The exponent lookup is odd up to one's complement: setting the sign bit turns a result
/// `x` into `-x - 1`.
pub proof fn lemma_exp_sign(lut: Seq<u16>, i: u16)
    requires
        i < 0x8000,
    ensures
        exp_value(lut, (i + 0x8000) as u16) == -exp_value(lut, i) - 1,
{
}

/// The fields an envelope update leaves alone: the patch registers, frequency, octave,
/// volume, instrument, key and sustain state, the envelope counter and the tables.
pub open spec fn same_settings(a: Vrc7AudioChannel, b: Vrc7AudioChannel) -> bool {
    &&& b.logsin_lut == a.logsin_lut && b.exp_lut == a.exp_lut
    &&& b.fnum == a.fnum && b.octave == a.octave && b.volume == a.volume
    &&& b.instrument_index == a.instrument_index
    &&& b.modulator_tremolo == a.modulator_tremolo && b.modulator_vibrato == a.modulator_vibrato
    &&& b.modulator_sustain_enabled == a.modulator_sustain_enabled
    &&& b.modulator_key_scaling == a.modulator_key_scaling
    &&& b.modulator_multiplier == a.modulator_multiplier
    &&& b.carrier_tremolo == a.carrier_tremolo && b.carrier_vibrato == a.carrier_vibrato
    &&& b.carrier_sustain_enabled == a.carrier_sustain_enabled
    &&& b.carrier_key_scaling == a.carrier_key_scaling
    &&& b.carrier_multiplier == a.carrier_multiplier
    &&& b.modulator_key_level_scaling == a.modulator_key_level_scaling
    &&& b.modulator_output_level == a.modulator_output_level
    &&& b.carrier_key_level_scaling == a.carrier_key_level_scaling
    &&& b.carrier_rectified == a.carrier_rectified && b.modulator_rectified == a.modulator_rectified
    &&& b.feedback == a.feedback
    &&& b.modulator_attack_rate == a.modulator_attack_rate && b.modulator_decay_rate == a.modulator_decay_rate
    &&& b.carrier_attack_rate == a.carrier_attack_rate && b.carrier_decay_rate == a.carrier_decay_rate
    &&& b.modulator_sustain_level == a.modulator_sustain_level
    &&& b.modulator_release_rate == a.modulator_release_rate
    &&& b.carrier_sustain_level == a.carrier_sustain_level
    &&& b.carrier_release_rate == a.carrier_release_rate
    &&& b.global_counter == a.global_counter
    &&& b.global_counter_toggled_bits == a.global_counter_toggled_bits
    &&& b.key_on == a.key_on && b.sustain_mode == a.sustain_mode
}

/// The carrier envelope moves at most one state per update and only along its edges: a
/// silent damped carrier starts the note (attack, or decay for attack rate 15), a finished
/// attack (level 0) decays, a decay at the sustain level sustains; it never enters the damp
/// state itself. The settings stay as they were.
pub proof fn lemma_carrier_envelope_transitions(c: Vrc7AudioChannel)
    requires
        c.wf(),
    ensures
        carrier_adsr_step(c).carrier_env_state == EnvState::Damp ==> c.carrier_env_state == EnvState::Damp,
        carrier_adsr_step(c).carrier_env_state != c.carrier_env_state ==> {
            ||| c.carrier_env_state == EnvState::Damp && c.carrier_env_level / 4 == 31
                && (carrier_adsr_step(c).carrier_env_state == EnvState::Attack
                    || carrier_adsr_step(c).carrier_env_state == EnvState::Decay)
            ||| c.carrier_env_state == EnvState::Attack && c.carrier_env_level == 0
                && carrier_adsr_step(c).carrier_env_state == EnvState::Decay
            ||| c.carrier_env_state == EnvState::Decay && c.carrier_env_level / 8 == c.carrier_sustain_level
                && carrier_adsr_step(c).carrier_env_state == EnvState::Sustain
        },
        same_settings(c, carrier_adsr_step(c)),
        carrier_adsr_step(c).carrier_env_level <= 127,
        carrier_adsr_step(c).modulator_env_level <= 127,
        c.key_on && carrier_adsr_step(c).carrier_env_state == EnvState::Attack
            ==> carrier_adsr_step(c).carrier_env_level <= c.carrier_env_level,
{
    lemma_carrier_adsr_step_wf(c);
    lemma_carrier_transition_wf(c);
    let c1 = carrier_transition(c);
    assert(same_settings(c, c1));
    assert(carrier_adsr_step(c).carrier_env_state == c1.carrier_env_state);
    assert(same_settings(c1, carrier_adsr_step(c)));
}

/// After key-off (outside the damp state) the carrier only grows quieter: its attenuation
/// rises by at most 2 per update and never passes 127.
pub proof fn lemma_carrier_release_attenuates(c: Vrc7AudioChannel)
    requires
        c.wf(),
        !c.key_on,
        c.carrier_env_state != EnvState::Damp,
    ensures
        c.carrier_env_level <= carrier_adsr_step(c).carrier_env_level,
        carrier_adsr_step(c).carrier_env_level <= c.carrier_env_level + 2,
        carrier_adsr_step(c).carrier_env_level <= 127,
{
}

/// The modulator envelope moves at most one state per update (a finished attack decays, a
/// decay at the sustain level sustains); while attacking its attenuation only falls,
/// otherwise it only rises, by at most 2, never past 127. Only the modulator's envelope
/// changes.
pub proof fn lemma_modulator_envelope_steps(c: Vrc7AudioChannel)
    requires
        c.wf(),
    ensures
        modulator_adsr_step(c).modulator_env_state != c.modulator_env_state ==> {
            ||| c.modulator_env_state == EnvState::Attack && c.modulator_env_level == 0
                && modulator_adsr_step(c).modulator_env_state == EnvState::Decay
            ||| c.modulator_env_state == EnvState::Decay && c.modulator_env_level / 8 == c.modulator_sustain_level
                && modulator_adsr_step(c).modulator_env_state == EnvState::Sustain
        },
        modulator_adsr_step(c).modulator_env_state == EnvState::Attack
            ==> modulator_adsr_step(c).modulator_env_level <= c.modulator_env_level,
        modulator_adsr_step(c).modulator_env_state != EnvState::Attack ==> {
            &&& c.modulator_env_level <= modulator_adsr_step(c).modulator_env_level
            &&& modulator_adsr_step(c).modulator_env_level <= c.modulator_env_level + 2
        },
        modulator_adsr_step(c).modulator_env_level <= 127,
        same_settings(c, modulator_adsr_step(c)),
        modulator_adsr_step(c).carrier_env_state == c.carrier_env_state,
        modulator_adsr_step(c).carrier_env_level == c.carrier_env_level,
        modulator_adsr_step(c).carrier_phase == c.carrier_phase,
        modulator_adsr_step(c).modulator_phase == c.modulator_phase,
{
    lemma_modulator_adsr_step_wf(c);
    lemma_modulator_transition_wf(c);
    let c1 = modulator_transition(c);
    let rate = modulator_rate(c1);
    let attacking = c1.modulator_env_state == EnvState::Attack;
    lemma_envelope_level_step_bound(c1.modulator_env_level, rate, attacking);
    let n = modulator_adsr_step(c);
    assert(n.modulator_env_state == c1.modulator_env_state);
    assert(same_settings(c, c1));
    assert(same_settings(c1, n));
    assert(n.modulator_env_level == c1.modulator_env_level
        || n.modulator_env_level == envelope_level_step(c1.modulator_env_level, rate, attacking));
    assert(c1.modulator_env_level == c.modulator_env_level);
}

/// An envelope at effective rate `rate` (up to 55) steps exactly on the counter values that
/// are multiples of `2^(13 - rate / 4)`: with the counter at `g`, the bits that changed on its
/// last tick are `(g - 1) ^ g`.
pub proof fn lemma_envelope_period(g: u32, rate: u8)
    requires
        1 <= g,
        rate <= 55,
    ensures
        envelope_step_due(((g - 1) as u32) ^ g, rate) == (g as nat % pow2((13 - rate / 4) as nat) == 0),
{
    reveal(envelope_step_due);
    let s: u32 = (13 - rate / 4) as u32;
    let gm1: u32 = (g - 1) as u32;
    let t: u32 = gm1 ^ g;
    let one_shifted: u32 = 1u32 << s;
    let mask: u32 = (one_shifted - 1) as u32;
    assert(((t >> s) & 1 == 1) == (g & mask == 0)) by (bit_vector)
        requires
            gm1 + 1 == g,
            t == gm1 ^ g,
            s <= 13,
            one_shifted == 1u32 << s,
            mask == (one_shifted - 1) as u32;
    assert((t >> s) & 1 == 1 ==> ((t >> s) & 7 == 1 || (t >> s) & 7 == 3 || (t >> s) & 7 == 7)) by (bit_vector)
        requires
            gm1 + 1 == g,
            t == gm1 ^ g,
            s <= 13;
    let shifted: u32 = t >> s;
    assert(shifted & 1 == shifted % 2 && shifted & 7 == shifted % 8) by (bit_vector);
    vstd::bits::lemma_u32_shr_is_div(t, s);
    vstd::bits::lemma_u32_pow2_no_overflow(s as nat);
    vstd::bits::lemma_u32_shl_is_mul(1u32, s);
    vstd::arithmetic::power2::lemma_pow2_pos(s as nat);
    assert(mask == vstd::bits::low_bits_mask(s as nat));
    vstd::bits::lemma_u32_low_bits_mask_is_mod(g, s as nat);
    assert(((13 - rate / 4) % 32) as nat == s as nat);
}

/// Exponent lookups with the sign clear lie between 0 and 4094, and when the exponent table
/// is non-decreasing they never grow with the argument: more attenuation never gives a larger
/// value.
pub proof fn lemma_exp_monotone(logsin: Seq<u16>, exp: Seq<u16>, j: u16, k: u16)
    requires
        tables_wf(logsin, exp),
        forall|x: int, y: int| 0 <= x <= y < 256 ==> exp[x] <= exp[y],
        j <= k < 0x2000,
    ensures
        0 <= exp_value(exp, k) <= exp_value(exp, j) <= 4094,
{
    let nj = (j / 256) as nat;
    let nk = (k / 256) as nat;
    let ej = exp[255 - (j % 256) as int];
    let ek = exp[255 - (k % 256) as int];
    let aj = 2 * (1024 + ej);
    let ak = 2 * (1024 + ek);
    assert(j / 256 % 128 == j / 256 && k / 256 % 128 == k / 256);
    assert(aj % 0x10000 == aj && ak % 0x10000 == ak);
    vstd::arithmetic::power2::lemma_pow2_pos(nj);
    vstd::arithmetic::power2::lemma_pow2_pos(nk);
    let pj = pow2(nj) as int;
    let pk = pow2(nk) as int;
    assert(aj / pj <= aj) by (nonlinear_arith) requires pj >= 1, aj >= 0;
    assert(ak / pk >= 0) by (nonlinear_arith) requires pk >= 1, ak >= 0;
    if nj == nk {
        assert(ek <= ej);
        assert(ak / pk <= aj / pj) by (nonlinear_arith) requires pk == pj, pk >= 1, 0 <= ak <= aj;
    } else {
        assert(nj < nk);
        vstd::arithmetic::power2::lemma_pow2_adds(nj, 1);
        vstd::arithmetic::power2::lemma_pow2_strictly_increases(nj, nk);
        vstd::arithmetic::power2::lemma_pow2_pos(nj + 1);
        let p1 = pow2(nj + 1) as int;
        assert(pow2(1) == 2) by { vstd::arithmetic::power2::lemma2_to64(); }
        assert(p1 == pj * 2);
        assert(pk >= p1) by {
            if nk > nj + 1 {
                vstd::arithmetic::power2::lemma_pow2_strictly_increases(nj + 1, nk);
            }
        }
        // ak < 4096 = 2 * 2048 <= 2 * aj, so ak / pk <= ak / (2 pj) < aj / pj + 1.
        assert(ak / pk <= ak / p1) by (nonlinear_arith) requires pk >= p1, p1 >= 1, ak >= 0;
        assert(ak / p1 <= aj / pj) by (nonlinear_arith)
            requires p1 == pj * 2, pj >= 1, 0 <= ak < 4096, 2048 <= aj;
    }
}

/// The log-sine lookup only reads the low ten bits of the phase, and the second half of the
/// wave is the first half with the sign bit set.
pub proof fn lemma_logsin_period(lut: Seq<u16>, i: usize)
    ensures
        logsin_value(lut, i) == logsin_value(lut, (i % 0x400) as usize),
        i < 0x200 ==> logsin_value(lut, (i + 0x200) as usize) == 0x8000 | logsin_value(lut, i),
{
}

/// While the key is held, an attacking carrier (attack rate 1..14) only grows louder: its
/// attenuation never rises, and on every update where its envelope step is due it falls from
/// `level` to `level - level / 16 - 1`.
pub proof fn lemma_carrier_attack_descends(c: Vrc7AudioChannel)
    requires
        c.wf(),
        c.key_on,
        c.carrier_env_state == EnvState::Attack,
        c.carrier_env_level > 0,
        1 <= c.carrier_attack_rate <= 14,
    ensures
        carrier_adsr_step(c).carrier_env_state == EnvState::Attack,
        carrier_adsr_step(c).carrier_env_level <= c.carrier_env_level,
        envelope_step_due(c.global_counter_toggled_bits,
            effective_rate(c.octave, c.fnum, c.carrier_attack_rate, c.carrier_key_scaling))
            ==> carrier_adsr_step(c).carrier_env_level == c.carrier_env_level - c.carrier_env_level / 16 - 1,
{
}

/// The attacking carrier's attenuation falls strictly once every `2^(13 - rate / 4)` envelope
/// counter ticks, `rate` being its effective attack rate (up to 55): so a held key brings the
/// carrier to full volume after finitely many updates.
pub proof fn lemma_carrier_attack_progress(c: Vrc7AudioChannel)
    requires
        c.wf(),
        c.key_on,
        c.carrier_env_state == EnvState::Attack,
        c.carrier_env_level > 0,
        1 <= c.carrier_attack_rate <= 14,
        c.global_counter >= 1,
        c.global_counter_toggled_bits == ((c.global_counter - 1) as u32) ^ c.global_counter,
        effective_rate(c.octave, c.fnum, c.carrier_attack_rate, c.carrier_key_scaling) <= 55,
        c.global_counter as nat % pow2((13 - effective_rate(c.octave, c.fnum, c.carrier_attack_rate,
            c.carrier_key_scaling) / 4) as nat) == 0,
    ensures
        carrier_adsr_step(c).carrier_env_level < c.carrier_env_level,
{
    lemma_envelope_period(c.global_counter,
        effective_rate(c.octave, c.fnum, c.carrier_attack_rate, c.carrier_key_scaling));
    lemma_carrier_attack_descends(c);
}

/// A volume step attenuates the carrier exactly as much as eight envelope steps: the channel
/// sounds the same with volume `v` and envelope level `e` as with volume 0 and level
/// `e + 8 * v`.
pub proof fn lemma_volume_is_eight_envelope_steps(c: Vrc7AudioChannel)
    requires
        c.carrier_env_level + 8 * c.volume <= 127,
    ensures
        channel_output(c) == channel_output(Vrc7AudioChannel {
            volume: 0,
            carrier_env_level: (c.carrier_env_level + 8 * c.volume) as u8,
            ..c
        }),
{
}

/// The volume register attenuates: every two volume steps halve the largest possible sample,
/// `16 * |output| <= 4096 / 2^(volume / 2)`, so volume 15 keeps the channel within -2..2
/// whatever its phase and envelope.
pub proof fn lemma_volume_bounds_output(c: Vrc7AudioChannel)
    requires
        c.wf(),
    ensures
        -(4096int / pow2((c.volume / 2) as nat) as int) <= 16 * channel_output(c)
            <= 4096int / pow2((c.volume / 2) as nat) as int,
{
    let effective_mod_phase = if c.modulator_phase == 0 { 0x7FFFFu32 } else { (c.modulator_phase - 1) as u32 };
    let mod_logsin = logsin_value(c.logsin_lut@, (effective_mod_phase / 512) as usize);
    let mod_amount = exp_value(c.exp_lut@,
        (mod_logsin + 32 * c.modulator_output_level + 16 * c.modulator_env_level) as u16) & !1i16;
    let idx = ((c.carrier_phase / 512 + mod_amount) % 0x80000) as usize;
    let v = logsin_value(c.logsin_lut@, idx);
    lemma_logsin_value_range(c.logsin_lut@, c.exp_lut@, idx);
    let attenuation = 128 * c.volume + 16 * c.carrier_env_level;
    lemma_attenuated_argument(v, attenuation);
    let arg = (v + attenuation) as u16;
    let integral = ((arg / 256) % 128) as nat;
    let half = (c.volume / 2) as nat;
    assert(integral >= half);
    let fraction = (arg % 256) as int;
    let num = (2 * (1024 + c.exp_lut@[255 - fraction])) % 0x10000;
    assert(c.exp_lut@[255 - fraction] < 0x400);
    assert(0 <= num <= 4094);
    vstd::arithmetic::power2::lemma_pow2_pos(integral);
    vstd::arithmetic::power2::lemma_pow2_pos(half);
    vstd::arithmetic::power2::lemma2_to64();
    if integral > half {
        vstd::arithmetic::power2::lemma_pow2_strictly_increases(half, integral);
    }
    if half < 7 {
        vstd::arithmetic::power2::lemma_pow2_strictly_increases(half, 7);
    }
    let p = pow2(half) as int;
    let q = pow2(integral) as int;
    assert(1 <= p <= 128);
    assert(p <= q);
    let mag = num / q;
    assert(mag * p <= num) by (nonlinear_arith)
        requires mag == num / q, p <= q, p >= 1, num >= 0;
    assert(mag >= 0) by (nonlinear_arith) requires mag == num / q, q >= 1, num >= 0;
    let bound = 4096int / p;
    assert(mag + 1 <= bound) by {
        assert(half <= 7);
        assert(p == 1 || p == 2 || p == 4 || p == 8 || p == 16 || p == 32 || p == 64 || p == 128) by {
            if half == 0 {} else if half == 1 {} else if half == 2 {} else if half == 3 {}
            else if half == 4 {} else if half == 5 {} else if half == 6 {} else {}
        }
    }
    assert(exp_value(c.exp_lut@, arg) == if arg >= 0x8000 { (-(mag as i16) - 1) as i16 } else { mag as i16 });
}

/// A step of the modulator's output level attenuates it exactly as much as two envelope
/// steps: the channel sounds the same with output level `t` and modulator level `e` as with
/// output level 0 and modulator level `e + 2 * t`.
pub proof fn lemma_output_level_is_two_envelope_steps(c: Vrc7AudioChannel)
    requires
        c.modulator_env_level + 2 * c.modulator_output_level <= 127,
    ensures
        channel_output(c) == channel_output(Vrc7AudioChannel {
            modulator_output_level: 0,
            modulator_env_level: (c.modulator_env_level + 2 * c.modulator_output_level) as u8,
            ..c
        }),
{
}

} // verus!
