use logic::codec::{decode, encode, DecodeError, Instruction};

fn inst(
    target_angle: i16,
    target_position: i16,
    belt_active: bool,
    belt_direction: bool,
    solenoid_active: bool,
    thrust: i16,
) -> Instruction {
    Instruction { target_angle, target_position, belt_active, belt_direction, solenoid_active, thrust }
}

#[test]
fn codec_round_trips_ordinary_instructions() {
    let cases = [
        inst(0, 0, false, false, false, 0),
        inst(45, -100, true, false, true, 6000),
        inst(-90, 255, false, true, false, -1),
        inst(1, -1, true, true, true, 1),
    ];
    for i in cases {
        assert_eq!(decode(&encode(&i)), Ok(i));
    }
}

#[test]
fn codec_round_trips_field_extremes() {
    let cases = [
        inst(-180, -256, true, true, true, -12000),
        inst(180, 255, false, false, false, 12000),
        inst(-180, 255, true, false, false, 12000),
        inst(180, -256, false, true, true, -12000),
    ];
    for i in cases {
        assert_eq!(decode(&encode(&i)), Ok(i));
    }
}

#[test]
fn encode_packs_the_documented_layout() {
    // all-zero instruction packs to all-zero bytes
    assert_eq!(encode(&inst(0, 0, false, false, false, 0)), [0, 0, 0, 0, 0]);
    // angle 1 sits in the top nine bits: 1 << 31 over 40 bits
    assert_eq!(encode(&inst(1, 0, false, false, false, 0)), [0x00, 0x80, 0x00, 0x00, 0x00]);
    // thrust 1 sits just above the four padding bits
    assert_eq!(encode(&inst(0, 0, false, false, false, 1)), [0, 0, 0, 0, 0x10]);
    // the solenoid flag is bit 20 from the top
    assert_eq!(encode(&inst(0, 0, false, false, true, 0)), [0, 0, 0x08, 0, 0]);
}

#[test]
fn decode_rejects_undersized_and_oversized_buffers() {
    assert_eq!(decode(&[]), Err(DecodeError::Malformed));
    assert_eq!(decode(&[0, 0, 0, 0]), Err(DecodeError::Malformed));
    assert_eq!(decode(&[0, 0, 0, 0, 0, 0]), Err(DecodeError::Malformed));
}

#[test]
fn decode_rejects_nonzero_padding() {
    let mut bytes = encode(&inst(10, 20, true, false, false, 300));
    bytes[4] |= 0x01;
    assert_eq!(decode(&bytes), Err(DecodeError::Malformed));
}

#[test]
fn decode_rejects_out_of_range_fields() {
    // an angle bit pattern of 200 degrees: 200 << 31 over 40 bits
    let angle_200: u64 = 200 << 31;
    let bytes: Vec<u8> = (0..5).map(|k| (angle_200 >> (32 - 8 * k)) as u8).collect();
    assert_eq!(decode(&bytes), Err(DecodeError::Malformed));
    // a thrust bit pattern of 13000 millivolts
    let thrust_13000: u64 = 13000 << 4;
    let bytes: Vec<u8> = (0..5).map(|k| (thrust_13000 >> (32 - 8 * k)) as u8).collect();
    assert_eq!(decode(&bytes), Err(DecodeError::Malformed));
}

#[test]
fn idle_instruction_is_all_off() {
    let idle = Instruction::idle();
    assert_eq!(idle, inst(0, 0, false, false, false, 0));
}
