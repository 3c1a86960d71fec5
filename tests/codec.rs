use arctos_servo::axis::Axis;
use arctos_servo::codec::{DecodeError, EncodeError, StatusField};
use arctos_servo::frame::{compute_crc, compute_crc_id_bytes, Frame, FrameId};
use arctos_servo::servo_cmd::{
    Direction, MotionStatus, MotorStatus, ProgressStatus, ServoOpcode, ServoRequest, ServoResponse,
    WorkMode,
};

fn reply(id: FrameId, body: &[u8]) -> Frame {
    let mut data = body.to_vec();
    data.push(compute_crc(id, body));
    Frame { id, data }
}

fn decode(body: &[u8]) -> Result<ServoResponse, DecodeError> {
    let id = Axis::X.id();
    ServoResponse::from_frame(id, &reply(id, body))
}

#[test]
fn checksum_sums_id_and_data_bytes() {
    assert_eq!(compute_crc_id_bytes(&[0x00, 0x01], &[0x30]), 0x31);
    assert_eq!(compute_crc_id_bytes(&[0xff, 0xff], &[0x02]), 0x00);
    assert_eq!(compute_crc_id_bytes(&[], &[]), 0x00);
}

#[test]
fn checksum_of_standard_and_extended_ids() {
    assert_eq!(compute_crc(FrameId::Standard(0x102), &[0x10]), 0x13);
    assert_eq!(compute_crc(FrameId::Extended(0x1234_5678), &[0x01]), (0x12 + 0x34 + 0x56 + 0x78 + 1) as u8);
}

#[test]
fn axis_ids_are_one_to_six() {
    assert_eq!(Axis::X.id(), FrameId::Standard(1));
    assert_eq!(Axis::C.id(), FrameId::Standard(6));
}

#[test]
fn encode_set_work_mode() {
    let f = ServoRequest::SetWorkMode { work_mode: WorkMode::SrVFoc }.to_frame(FrameId::Standard(1)).unwrap();
    assert_eq!(f.id, FrameId::Standard(1));
    assert_eq!(f.data, vec![0x82, 0x05, 0x88]);
}

#[test]
fn encode_no_argument_read() {
    let f = ServoRequest::ReadEncoderValueAddition.to_frame(FrameId::Standard(2)).unwrap();
    assert_eq!(f.data, vec![0x31, 0x33]);
}

#[test]
fn encode_absolute_motion_negative_target() {
    let req = ServoRequest::RunPositionAbsoluteMotionMode { speed: 300, accel: 176, abs_axis: -1 };
    let f = req.to_frame(FrameId::Standard(1)).unwrap();
    assert_eq!(f.data, vec![0xf5, 0x01, 0x2c, 0xb0, 0xff, 0xff, 0xff, 0xd0]);
    assert!(f.data.len() <= 8);
}

#[test]
fn encode_speed_mode_packs_direction_bit() {
    let req = ServoRequest::RunSpeedMode { dir: Direction::CCW, speed: 0x123, acc: 2 };
    let f = req.to_frame(FrameId::Standard(1)).unwrap();
    assert_eq!(f.data, vec![0xf6, 0x81, 0x23, 0x02, (1 + 0xf6 + 0x81 + 0x23 + 2) as u8]);
    let req = ServoRequest::RunSpeedMode { dir: Direction::CW, speed: 0x123, acc: 2 };
    assert_eq!(req.to_frame(FrameId::Standard(1)).unwrap().data[1], 0x01);
}

#[test]
fn encode_set_home_layout() {
    let req = ServoRequest::SetHome {
        home_trig: arctos_servo::servo_cmd::HomeTrig::High,
        home_dir: Direction::CCW,
        home_speed: 3000,
        end_limit: true,
    };
    let f = req.to_frame(FrameId::Standard(3)).unwrap();
    assert_eq!(&f.data[..6], &[0x90, 0x01, 0x01, 0x0b, 0xb8, 0x01]);
    assert_eq!(f.data.len(), 7);
}

#[test]
fn bus_ids_out_of_range_fail_to_encode() {
    let id = FrameId::Standard(1);
    assert_eq!(ServoRequest::SetCanId { id: 0x800 }.to_frame(id), Err(EncodeError::FieldOutOfRange));
    assert_eq!(ServoRequest::SetGroupId { id: 0x800 }.to_frame(id), Err(EncodeError::FieldOutOfRange));
    let f = ServoRequest::SetCanId { id: 0x7ff }.to_frame(id).unwrap();
    assert_eq!(f.data, vec![0x8b, 0x07, 0xff, (1 + 0x8b + 0x07 + 0xff) as u8]);
    let f = ServoRequest::SetGroupId { id: 0x7ff }.to_frame(id).unwrap();
    assert_eq!(f.data, vec![0x8d, 0x07, 0xff, (1 + 0x8d + 0x07 + 0xff) as u8]);
}

#[test]
fn home_speed_and_targets_out_of_range_fail_to_encode() {
    let id = FrameId::Standard(1);
    let home = ServoRequest::SetHome {
        home_trig: arctos_servo::servo_cmd::HomeTrig::Low,
        home_dir: Direction::CW,
        home_speed: 3001,
        end_limit: false,
    };
    assert_eq!(home.to_frame(id), Err(EncodeError::FieldOutOfRange));
    let too_far = ServoRequest::RunPositionRelativeMotionMode { speed: 1, acc: 1, rel_axis: 0x80_0000 };
    assert_eq!(too_far.to_frame(id), Err(EncodeError::FieldOutOfRange));
    let lowest = ServoRequest::RunPositionAbsoluteMotionMode { speed: 1, accel: 1, abs_axis: -0x80_0000 };
    assert_eq!(&lowest.to_frame(id).unwrap().data[4..7], &[0x80, 0x00, 0x00]);
    let below = ServoRequest::RunPositionAbsoluteMotionMode { speed: 1, accel: 1, abs_axis: -0x80_0001 };
    assert_eq!(below.to_frame(id), Err(EncodeError::FieldOutOfRange));
}

#[test]
fn decode_success_flag() {
    assert_eq!(decode(&[0x82, 0x01]), Ok(ServoResponse::SetWorkMode { success: true }));
    assert_eq!(decode(&[0x82, 0x00]), Ok(ServoResponse::SetWorkMode { success: false }));
    assert_eq!(decode(&[0xf3, 0x01]), Ok(ServoResponse::Enable { success: true }));
}

#[test]
fn decode_ignores_trailing_bytes() {
    assert_eq!(decode(&[0x92, 0x01, 0x55, 0x66]), Ok(ServoResponse::SetAxisZero { success: true }));
}

#[test]
fn decode_empty_frame() {
    let f = Frame { id: FrameId::Standard(1), data: vec![] };
    assert_eq!(ServoResponse::from_frame(FrameId::Standard(1), &f), Err(DecodeError::EmptyFrame));
}

#[test]
fn decode_checksum_mismatch() {
    let f = Frame { id: FrameId::Standard(1), data: vec![0x82, 0x01, 0x00] };
    assert_eq!(
        ServoResponse::from_frame(FrameId::Standard(1), &f),
        Err(DecodeError::ChecksumMismatch { expected: 0x84, actual: 0x00 })
    );
}

#[test]
fn decode_checksum_depends_on_id() {
    let f = reply(FrameId::Standard(1), &[0x82, 0x01]);
    assert!(matches!(
        ServoResponse::from_frame(FrameId::Standard(2), &f),
        Err(DecodeError::ChecksumMismatch { .. })
    ));
}

#[test]
fn decode_missing_and_unknown_opcode() {
    assert_eq!(decode(&[]), Err(DecodeError::MissingOpcode));
    assert_eq!(decode(&[0x00, 0x01]), Err(DecodeError::UnknownOpcode { opcode: 0x00 }));
}

#[test]
fn decode_payload_too_short() {
    assert_eq!(
        decode(&[0x31, 0x00, 0x00]),
        Err(DecodeError::PayloadTooShort { opcode: ServoOpcode::ReadEncoderValueAddition, len: 2 })
    );
    assert_eq!(
        decode(&[0x82]),
        Err(DecodeError::PayloadTooShort { opcode: ServoOpcode::SetWorkMode, len: 0 })
    );
}

#[test]
fn decode_invalid_enum_values() {
    assert_eq!(
        decode(&[0xf5, 0x04]),
        Err(DecodeError::InvalidEnumValue { field: StatusField::MotionStatus, value: 4 })
    );
    assert_eq!(
        decode(&[0x80, 0x03]),
        Err(DecodeError::InvalidEnumValue { field: StatusField::ProgressStatus, value: 3 })
    );
    assert_eq!(
        decode(&[0x91, 0x03]),
        Err(DecodeError::InvalidEnumValue { field: StatusField::GoHomeProgress, value: 3 })
    );
    assert_eq!(
        decode(&[0xf1, 0x05]),
        Err(DecodeError::InvalidEnumValue { field: StatusField::MotorStatus, value: 5 })
    );
}

#[test]
fn decode_go_home_uses_its_own_mapping() {
    assert_eq!(decode(&[0x91, 0x00]), Ok(ServoResponse::GoHome { progress: ProgressStatus::Fail }));
    assert_eq!(decode(&[0x91, 0x01]), Ok(ServoResponse::GoHome { progress: ProgressStatus::Busy }));
    assert_eq!(decode(&[0x91, 0x02]), Ok(ServoResponse::GoHome { progress: ProgressStatus::Success }));
    assert_eq!(decode(&[0x80, 0x00]), Ok(ServoResponse::Calibrate { status: ProgressStatus::Busy }));
    assert_eq!(
        decode(&[0x3b, 0x02]),
        Ok(ServoResponse::ReadGoBackToZeroOnPowerOnStatus { status: ProgressStatus::Fail })
    );
}

#[test]
fn decode_query_status() {
    assert_eq!(decode(&[0xf1, 0x00]), Ok(ServoResponse::QueryStatus { status: None }));
    assert_eq!(
        decode(&[0xf1, 0x01]),
        Ok(ServoResponse::QueryStatus { status: Some(MotorStatus::MotorSpeedingUp) })
    );
    assert_eq!(
        decode(&[0xf1, 0x04]),
        Ok(ServoResponse::QueryStatus { status: Some(MotorStatus::MotorHoming) })
    );
}

#[test]
fn decode_motion_status() {
    assert_eq!(
        decode(&[0xf5, 0x03]),
        Ok(ServoResponse::RunPositionAbsoluteMotionMode { status: MotionStatus::LimitReached })
    );
    assert_eq!(decode(&[0xf6, 0x00]), Ok(ServoResponse::RunSpeedMode { status: MotionStatus::Fail }));
}

#[test]
fn decode_multi_byte_reads() {
    assert_eq!(
        decode(&[0x30, 0xff, 0xff, 0xff, 0xfe, 0x12, 0x34]),
        Ok(ServoResponse::ReadEncoderValueCarry { carry: -2, value: 0x1234 })
    );
    assert_eq!(decode(&[0x32, 0xff, 0x9c]), Ok(ServoResponse::ReadSpeed { speed: -100 }));
    assert_eq!(decode(&[0x33, 0x00, 0x01, 0x00, 0x00]), Ok(ServoResponse::ReadPulses { pulses: 65536 }));
    assert_eq!(decode(&[0x39, 0x80, 0x00, 0x00, 0x00]), Ok(ServoResponse::ReadError { error: i32::MIN }));
}

#[test]
fn decode_io_ports_bits() {
    assert_eq!(
        decode(&[0x34, 0b0101]),
        Ok(ServoResponse::ReadIOPorts { out_1: true, out_2: false, in_1: true, in_2: false })
    );
    assert_eq!(
        decode(&[0x34, 0b1010]),
        Ok(ServoResponse::ReadIOPorts { out_1: false, out_2: true, in_1: false, in_2: true })
    );
}

#[test]
fn encoder_value_sign_extension() {
    assert_eq!(
        decode(&[0x31, 0x7f, 0xff, 0xff, 0xff, 0xff, 0xff]),
        Ok(ServoResponse::ReadEncoderValueAddition { value: 0x7fff_ffff_ffff })
    );
    assert_eq!(
        decode(&[0x31, 0x81, 0x00, 0x00, 0x00, 0x00, 0x00]),
        Ok(ServoResponse::ReadEncoderValueAddition { value: 0x8100_0000_0000 - 0x1_0000_0000_0000 })
    );
    assert_eq!(
        decode(&[0x31, 0xff, 0xff, 0xff, 0xff, 0xff, 0xff]),
        Ok(ServoResponse::ReadEncoderValueAddition { value: -1 })
    );
}

#[test]
fn encoder_leading_0x80_reads_as_positive() {
    // The sign test is "greater than 0x80", so a leading 0x80 is taken as positive.
    assert_eq!(
        decode(&[0x31, 0x80, 0x00, 0x00, 0x00, 0x00, 0x00]),
        Ok(ServoResponse::ReadEncoderValueAddition { value: 0x8000_0000_0000 })
    );
}

#[test]
fn single_bit_flips_are_detected() {
    let id = FrameId::Standard(4);
    let good = reply(id, &[0xf5, 0x02]);
    assert!(ServoResponse::from_frame(id, &good).is_ok());
    for i in 0..good.data.len() {
        for bit in 0..8 {
            let mut bad = good.clone();
            bad.data[i] ^= 1 << bit;
            assert!(matches!(
                ServoResponse::from_frame(id, &bad),
                Err(DecodeError::ChecksumMismatch { .. })
            ));
        }
    }
}

#[test]
fn encoded_request_passes_the_checksum_on_decode() {
    let id = Axis::Y.id();
    let f = ServoRequest::Enable { enabled: true }.to_frame(id).unwrap();
    assert_eq!(ServoResponse::from_frame(id, &f), Ok(ServoResponse::Enable { success: true }));
    let f = ServoRequest::SetAxisZero.to_frame(id).unwrap();
    assert_eq!(
        ServoResponse::from_frame(id, &f),
        Err(DecodeError::PayloadTooShort { opcode: ServoOpcode::SetAxisZero, len: 0 })
    );
}

#[test]
fn reply_round_trip_recovers_fields() {
    let value: i64 = -123_456_789;
    let b = ((value as i128 + (1i128 << 48)) as u64).to_be_bytes();
    assert_eq!(
        decode(&[0x31, b[2], b[3], b[4], b[5], b[6], b[7]]),
        Ok(ServoResponse::ReadEncoderValueAddition { value })
    );
    let carry: i32 = -70000;
    let c = carry.to_be_bytes();
    assert_eq!(
        decode(&[0x30, c[0], c[1], c[2], c[3], 0x3f, 0xff]),
        Ok(ServoResponse::ReadEncoderValueCarry { carry, value: 0x3fff })
    );
}
