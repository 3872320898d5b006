//! The bit-packed autonomous instruction format.
//!
//! One instruction packs into five bytes, most significant bit first:
//!
//! | bits  | field           | width |
//! |-------|-----------------|-------|
//! | 0-8   | target angle    | 9     |
//! | 9-17  | target position | 9     |
//! | 18    | belt active     | 1     |
//! | 19    | belt direction  | 1     |
//! | 20    | solenoid active | 1     |
//! | 21-35 | thrust          | 15    |
//! | 36-39 | padding (zero)  | 4     |
//!
//! Signed fields are stored two's-complement in their width. Encoding is
//! bit-exact and round-trips losslessly for every field value inside its
//! declared range; decoding rejects undersized buffers, nonzero padding and
//! out-of-range field values rather than panicking.

use vstd::prelude::*;

verus! {

use vstd::arithmetic::div_mod::{
    lemma_div_denominator,
    lemma_div_is_ordered,
    lemma_fundamental_div_mod,
    lemma_fundamental_div_mod_converse,
};

/// A single autonomous instruction: where the robot should point and
/// stand, what its actuators should do, and how hard to drive.
#[derive(Clone, Copy, Debug, PartialEq, Eq, Structural)]
pub struct Instruction {
    /// The target angle in degrees, `-180..=180`, stored in 9 bits.
    pub target_angle: i16,
    /// The target position in millimetres, `-256..=255`, stored in 9 bits.
    pub target_position: i16,
    /// Whether the conveyor belt runs.
    pub belt_active: bool,
    /// Whether the belt runs upwards; ignored while the belt is off.
    pub belt_direction: bool,
    /// Whether the solenoid is engaged.
    pub solenoid_active: bool,
    /// The drive thrust in millivolts, `-12000..=12000`, stored in 15 bits.
    pub thrust: i16,
}

impl Instruction {
    /// Every field is inside its declared range.
    pub open spec fn wf(self) -> bool {
        &&& -180 <= self.target_angle <= 180
        &&& -256 <= self.target_position <= 255
        &&& -12000 <= self.thrust <= 12000
    }

    /// An instruction that commands nothing: centred, at the origin, all
    /// actuators off.
    pub fn idle() -> (r: Instruction)
        ensures
            r == (Instruction {
                target_angle: 0i16,
                target_position: 0i16,
                belt_active: false,
                belt_direction: false,
                solenoid_active: false,
                thrust: 0i16,
            }),
            r.wf(),
    {
        Instruction {
            target_angle: 0,
            target_position: 0,
            belt_active: false,
            belt_direction: false,
            solenoid_active: false,
            thrust: 0,
        }
    }
}

/// Decoding failure: the buffer is not exactly one well-formed packed
/// instruction.
#[derive(Clone, Copy, Debug, PartialEq, Eq, Structural)]
pub enum DecodeError {
    /// The buffer is undersized, oversized, carries nonzero padding, or
    /// holds a field value outside its declared range.
    Malformed,
}

/// A signed value in `[-256, 255]` as its 9-bit two's-complement bit
/// pattern.
pub open spec fn field9(v: int) -> int {
    if v < 0 {
        v + 512
    } else {
        v
    }
}

/// A signed value in `[-16384, 16383]` as its 15-bit two's-complement bit
/// pattern.
pub open spec fn field15(v: int) -> int {
    if v < 0 {
        v + 32768
    } else {
        v
    }
}

/// A 9-bit two's-complement bit pattern back as a signed value.
pub open spec fn unfield9(x: int) -> int {
    if x >= 256 {
        x - 512
    } else {
        x
    }
}

/// A 15-bit two's-complement bit pattern back as a signed value.
pub open spec fn unfield15(x: int) -> int {
    if x >= 16384 {
        x - 32768
    } else {
        x
    }
}

/// One if the flag is set, zero otherwise.
pub open spec fn bit_of(b: bool) -> int {
    if b {
        1
    } else {
        0
    }
}

/// The 40-bit packed word of an instruction: the fields in layout order
/// from the most significant bit down, with four zero padding bits at the
/// bottom.
pub open spec fn word_of(inst: Instruction) -> int {
    (((((field9(inst.target_angle as int) * 512 + field9(inst.target_position as int)) * 2
        + bit_of(inst.belt_active)) * 2 + bit_of(inst.belt_direction)) * 2
        + bit_of(inst.solenoid_active)) * 32768 + field15(inst.thrust as int)) * 16
}

/// The five big-endian bytes of a 40-bit word.
pub open spec fn bytes_of_word(w: int) -> Seq<u8> {
    seq![
        (w / 0x100000000) as u8,
        ((w / 0x1000000) % 256) as u8,
        ((w / 0x10000) % 256) as u8,
        ((w / 0x100) % 256) as u8,
        (w % 256) as u8,
    ]
}

/// The packed five-byte record of an instruction.
pub open spec fn bytes_of(inst: Instruction) -> Seq<u8> {
    bytes_of_word(word_of(inst))
}

/// The 40-bit word a five-byte buffer holds.
pub open spec fn word_of_bytes(b: Seq<u8>) -> int {
    (((b[0] * 256 + b[1]) * 256 + b[2]) * 256 + b[3]) * 256 + b[4]
}

/// The instruction a buffer holds: exactly five bytes whose padding bits
/// are zero and whose fields are all inside their declared ranges, or
/// nothing.
pub open spec fn decode_of(b: Seq<u8>) -> Option<Instruction> {
    if b.len() != 5 {
        None
    } else {
        let w = word_of_bytes(b);
        if w % 16 != 0 {
            None
        } else {
            let r0 = w / 16;
            let thrust = unfield15(r0 % 32768);
            let r1 = r0 / 32768;
            let solenoid_active = r1 % 2 == 1;
            let r2 = r1 / 2;
            let belt_direction = r2 % 2 == 1;
            let r3 = r2 / 2;
            let belt_active = r3 % 2 == 1;
            let r4 = r3 / 2;
            let target_position = unfield9(r4 % 512);
            let target_angle = unfield9(r4 / 512);
            let inst = Instruction {
                target_angle: target_angle as i16,
                target_position: target_position as i16,
                belt_active,
                belt_direction,
                solenoid_active,
                thrust: thrust as i16,
            };
            if inst.wf() {
                Some(inst)
            } else {
                None
            }
        }
    }
}

/// Splitting `q * d + r` at a divisor `d` recovers `q` and `r`.
proof fn lemma_peel(q: int, d: int, r: int)
    requires
        d > 0,
        0 <= r < d,
    ensures
        (q * d + r) / d == q,
        (q * d + r) % d == r,
{
    lemma_fundamental_div_mod_converse(q * d + r, d, q, r);
}

/// The packed word of a well-formed instruction fits in 40 bits.
proof fn lemma_word_range(inst: Instruction)
    requires
        inst.wf(),
    ensures
        0 <= word_of(inst) < 0x10000000000,
        word_of(inst) % 16 == 0,
{
    lemma_peel(word_of(inst) / 16, 16, 0);
    assert(word_of(inst) == (word_of(inst) / 16) * 16) by {
        lemma_peel(
            ((((field9(inst.target_angle as int) * 512 + field9(inst.target_position as int)) * 2
                + bit_of(inst.belt_active)) * 2 + bit_of(inst.belt_direction)) * 2
                + bit_of(inst.solenoid_active)) * 32768 + field15(inst.thrust as int),
            16,
            0,
        );
    }
}

/// Serialising a 40-bit word to five bytes and reading them back gives the
/// word again.
proof fn lemma_word_bytes(w: int)
    requires
        0 <= w < 0x10000000000,
    ensures
        word_of_bytes(bytes_of_word(w)) == w,
{
    lemma_fundamental_div_mod(w, 256);
    lemma_div_denominator(w, 256, 256);
    lemma_fundamental_div_mod(w / 256, 256);
    lemma_div_denominator(w, 0x10000, 256);
    lemma_fundamental_div_mod(w / 0x10000, 256);
    lemma_div_denominator(w, 0x1000000, 256);
    lemma_fundamental_div_mod(w / 0x1000000, 256);
    lemma_div_is_ordered(w, 0xffffffffff, 0x100000000);
}

/// Decoding the packed record of any well-formed instruction gives back
/// exactly that instruction: the codec round-trips losslessly for every
/// field value inside its declared range.
pub proof fn lemma_codec_round_trip(inst: Instruction)
    requires
        inst.wf(),
    ensures
        decode_of(bytes_of(inst)) == Some(inst),
{
    let a = field9(inst.target_angle as int);
    let p = field9(inst.target_position as int);
    let ba = bit_of(inst.belt_active);
    let bd = bit_of(inst.belt_direction);
    let sa = bit_of(inst.solenoid_active);
    let t = field15(inst.thrust as int);
    let w = word_of(inst);
    lemma_word_range(inst);
    lemma_word_bytes(w);
    let body = ((((a * 512 + p) * 2 + ba) * 2 + bd) * 2 + sa) * 32768 + t;
    lemma_peel(body, 16, 0);
    lemma_peel((((a * 512 + p) * 2 + ba) * 2 + bd) * 2 + sa, 32768, t);
    lemma_peel(((a * 512 + p) * 2 + ba) * 2 + bd, 2, sa);
    lemma_peel((a * 512 + p) * 2 + ba, 2, bd);
    lemma_peel(a * 512 + p, 2, ba);
    lemma_peel(a, 512, p);
}

/// Encodes an instruction to its packed five-byte record.
pub fn encode(inst: &Instruction) -> (r: [u8; 5])
    requires
        inst.wf(),
    ensures
        r@ == bytes_of(*inst),
{
    let a9: u64 = if inst.target_angle < 0 {
        (inst.target_angle + 512) as u64
    } else {
        inst.target_angle as u64
    };
    let p9: u64 = if inst.target_position < 0 {
        (inst.target_position + 512) as u64
    } else {
        inst.target_position as u64
    };
    let ba: u64 = if inst.belt_active { 1 } else { 0 };
    let bd: u64 = if inst.belt_direction { 1 } else { 0 };
    let sa: u64 = if inst.solenoid_active { 1 } else { 0 };
    let t15: u64 = if inst.thrust < 0 {
        (inst.thrust as i32 + 32768) as u64
    } else {
        inst.thrust as u64
    };
    let w: u64 = (((((a9 * 512 + p9) * 2 + ba) * 2 + bd) * 2 + sa) * 32768 + t15) * 16;
    let r: [u8; 5] = [
        (w / 0x100000000) as u8,
        ((w / 0x1000000) % 256) as u8,
        ((w / 0x10000) % 256) as u8,
        ((w / 0x100) % 256) as u8,
        (w % 256) as u8,
    ];
    proof {
        lemma_word_range(*inst);
        lemma_div_is_ordered(w as int, 0xffffffffff, 0x100000000);
        assert(r@ =~= bytes_of(*inst));
    }
    r
}

/// Decodes one packed five-byte record back into an instruction. The
/// buffer must be exactly one record with zero padding bits and every
/// field inside its declared range; anything else is malformed.
pub fn decode(bytes: &[u8]) -> (r: Result<Instruction, DecodeError>)
    ensures
        match r {
            Ok(inst) => decode_of(bytes@) == Some(inst),
            Err(e) => decode_of(bytes@) is None && e == DecodeError::Malformed,
        },
{
    if bytes.len() != 5 {
        return Err(DecodeError::Malformed);
    }
    let b0 = bytes[0] as u64;
    let b1 = bytes[1] as u64;
    let b2 = bytes[2] as u64;
    let b3 = bytes[3] as u64;
    let b4 = bytes[4] as u64;
    let w: u64 = (((b0 * 256 + b1) * 256 + b2) * 256 + b3) * 256 + b4;
    if w % 16 != 0 {
        return Err(DecodeError::Malformed);
    }
    let r0 = w / 16;
    let t15 = r0 % 32768;
    let r1 = r0 / 32768;
    let sa = r1 % 2 == 1;
    let r2 = r1 / 2;
    let bd = r2 % 2 == 1;
    let r3 = r2 / 2;
    let ba = r3 % 2 == 1;
    let r4 = r3 / 2;
    let p9 = r4 % 512;
    let a9 = r4 / 512;
    let target_angle = if a9 >= 256 {
        a9 as i64 - 512
    } else {
        a9 as i64
    };
    let target_position = if p9 >= 256 {
        p9 as i64 - 512
    } else {
        p9 as i64
    };
    let thrust = if t15 >= 16384 {
        t15 as i64 - 32768
    } else {
        t15 as i64
    };
    if target_angle < -180 || target_angle > 180 {
        return Err(DecodeError::Malformed);
    }
    if target_position < -256 || target_position > 255 {
        return Err(DecodeError::Malformed);
    }
    if thrust < -12000 || thrust > 12000 {
        return Err(DecodeError::Malformed);
    }
    Ok(Instruction {
        target_angle: target_angle as i16,
        target_position: target_position as i16,
        belt_active: ba,
        belt_direction: bd,
        solenoid_active: sa,
        thrust: thrust as i16,
    })
}

} // verus!
