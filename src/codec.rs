//! Encoding of commands into frames and decoding of replies from frames.

use vstd::prelude::*;

use crate::frame::{
    be_bytes_u16, compute_crc, frame_checksum, lemma_checksum_detects_byte_change, Frame, FrameId,
    MAX_FRAME_LEN,
};
use crate::servo_cmd::{
    Direction, MotionStatus, MotorStatus, ProgressStatus, ServoOpcode, ServoRequest, ServoResponse,
};

verus! {

/// Why a command could not be encoded.
#[derive(Copy, Clone, Debug, PartialEq, Eq, Structural)]
pub enum EncodeError {
    /// A numeric field lies outside its declared range.
    FieldOutOfRange,
}

pub open spec fn bool_byte(b: bool) -> u8 {
    if b {
        1
    } else {
        0
    }
}

/// The low 24 bits of `v` in two's complement, big-endian.
pub open spec fn be_bytes_i24(v: i32) -> Seq<u8> {
    let u = v as int % 0x100_0000;
    seq![(u / 0x1_0000) as u8, ((u / 0x100) % 0x100) as u8, (u % 0x100) as u8]
}

/// The byte that packs a direction into the top bit over the high byte of a speed.
pub open spec fn dir_speed_byte(dir: Direction, speed: u16) -> u8 {
    let hi = speed / 0x100;
    if dir.spec_code() == 1 && hi < 0x80 {
        (hi + 0x80) as u8
    } else {
        hi as u8
    }
}

pub open spec fn in_i24(v: i32) -> bool {
    -0x80_0000 <= v < 0x80_0000
}

impl ServoRequest {
    /// Whether every numeric field lies in its declared range.
    pub open spec fn spec_valid(self) -> bool {
        match self {
            ServoRequest::SetCanId { id } => id <= 0x7ff,
            ServoRequest::SetGroupId { id } => id <= 0x7ff,
            ServoRequest::SetHome { home_speed, .. } => home_speed <= 3000,
            ServoRequest::RunPositionRelativeMotionMode { rel_axis, .. } => in_i24(rel_axis),
            ServoRequest::RunPositionAbsoluteMotionMode { abs_axis, .. } => in_i24(abs_axis),
            _ => true,
        }
    }

    pub open spec fn spec_opcode(self) -> ServoOpcode {
        match self {
            ServoRequest::ReadEncoderValueCarry => ServoOpcode::ReadEncoderValueCarry,
            ServoRequest::ReadEncoderValueAddition => ServoOpcode::ReadEncoderValueAddition,
            ServoRequest::ReadSpeed => ServoOpcode::ReadSpeed,
            ServoRequest::ReadPulses => ServoOpcode::ReadPulses,
            ServoRequest::ReadIOPorts => ServoOpcode::ReadIOPorts,
            ServoRequest::ReadError => ServoOpcode::ReadError,
            ServoRequest::ReadEnPin => ServoOpcode::ReadEnPin,
            ServoRequest::ReadGoBackToZeroOnPowerOnStatus => ServoOpcode::ReadGoBackToZeroOnPowerOnStatus,
            ServoRequest::ReleaseMotorShaft => ServoOpcode::ReleaseMotorShaft,
            ServoRequest::ReadMotorShaftLockedRotor => ServoOpcode::ReadMotorShaftLockedRotor,
            ServoRequest::Calibrate => ServoOpcode::Calibrate,
            ServoRequest::SetWorkMode { .. } => ServoOpcode::SetWorkMode,
            ServoRequest::SetCurrent { .. } => ServoOpcode::SetCurrent,
            ServoRequest::SetSubdivision { .. } => ServoOpcode::SetSubdivision,
            ServoRequest::SetEnPinActiveMode { .. } => ServoOpcode::SetEnPinActiveMode,
            ServoRequest::SetDir { .. } => ServoOpcode::SetDir,
            ServoRequest::SetAutoSSD { .. } => ServoOpcode::SetAutoSSD,
            ServoRequest::SetMotorShaftLockedRotor { .. } => ServoOpcode::SetMotorShaftLockedRotor,
            ServoRequest::SetSubdivisionInterpolation { .. } => ServoOpcode::SetSubdivisionInterpolation,
            ServoRequest::SetCanBitRate { .. } => ServoOpcode::SetCanBitRate,
            ServoRequest::SetCanId { .. } => ServoOpcode::SetCanId,
            ServoRequest::SetCanEnableResponses { .. } => ServoOpcode::SetCanEnableResponses,
            ServoRequest::SetKeyLocked { .. } => ServoOpcode::SetKeyLocked,
            ServoRequest::SetGroupId { .. } => ServoOpcode::SetGroupId,
            ServoRequest::SetHome { .. } => ServoOpcode::SetHome,
            ServoRequest::GoHome => ServoOpcode::GoHome,
            ServoRequest::SetAxisZero => ServoOpcode::SetAxisZero,
            ServoRequest::SetZeroOnPoweronMode { .. } => ServoOpcode::SetZeroOnPowerOnMode,
            ServoRequest::RestoreDefaults => ServoOpcode::RestoreDefaults,
            ServoRequest::QueryStatus => ServoOpcode::QueryStatus,
            ServoRequest::Enable { .. } => ServoOpcode::Enable,
            ServoRequest::RunSpeedMode { .. } => ServoOpcode::RunSpeedMode,
            ServoRequest::SaveRunModeParams { .. } => ServoOpcode::SaveRunModeParams,
            ServoRequest::RunPositionRelativePulsesMode { .. } => ServoOpcode::RunPositionRelativePulsesMode,
            ServoRequest::RunPositionRelativeMotionMode { .. } => ServoOpcode::RunPositionRelativeMotionMode,
            ServoRequest::RunPositionAbsoluteMotionMode { .. } => ServoOpcode::RunPositionAbsoluteMotionMode,
        }
    }

    /// The bytes that follow the opcode, before the check byte.
    pub open spec fn spec_fields(self) -> Seq<u8> {
        match self {
            ServoRequest::SetWorkMode { work_mode } => seq![work_mode.spec_code()],
            ServoRequest::SetCurrent { current } => be_bytes_u16(current),
            ServoRequest::SetSubdivision { microsteps } => seq![microsteps],
            ServoRequest::SetEnPinActiveMode { active } => seq![active.spec_code()],
            ServoRequest::SetDir { dir } => seq![dir.spec_code()],
            ServoRequest::SetAutoSSD { enable } => seq![bool_byte(enable)],
            ServoRequest::SetMotorShaftLockedRotor { enable } => seq![bool_byte(enable)],
            ServoRequest::SetSubdivisionInterpolation { enable } => seq![bool_byte(enable)],
            ServoRequest::SetCanBitRate { bit_rate } => seq![bit_rate.spec_code()],
            ServoRequest::SetCanId { id } => be_bytes_u16(id),
            ServoRequest::SetCanEnableResponses { enable } => seq![bool_byte(enable)],
            ServoRequest::SetKeyLocked { enable } => seq![bool_byte(enable)],
            ServoRequest::SetGroupId { id } => be_bytes_u16(id),
            ServoRequest::SetHome { home_trig, home_dir, home_speed, end_limit } => seq![
                home_trig.spec_code(),
                home_dir.spec_code(),
            ] + be_bytes_u16(home_speed) + seq![bool_byte(end_limit)],
            ServoRequest::SetZeroOnPoweronMode { zero_mode, enable, speed, dir } => seq![
                zero_mode.spec_code(),
                bool_byte(enable),
                speed.spec_code(),
                dir.spec_code(),
            ],
            ServoRequest::Enable { enabled } => seq![bool_byte(enabled)],
            ServoRequest::RunSpeedMode { dir, speed, acc } => seq![
                dir_speed_byte(dir, speed),
                (speed % 0x100) as u8,
                acc,
            ],
            ServoRequest::SaveRunModeParams { save_state } => seq![save_state.spec_code()],
            ServoRequest::RunPositionRelativePulsesMode { dir, speed, acc, pulses } => seq![
                dir_speed_byte(dir, speed),
                (speed % 0x100) as u8,
                acc,
            ] + be_bytes_u16(pulses),
            ServoRequest::RunPositionRelativeMotionMode { speed, acc, rel_axis } => be_bytes_u16(
                speed,
            ) + seq![acc] + be_bytes_i24(rel_axis),
            ServoRequest::RunPositionAbsoluteMotionMode { speed, accel, abs_axis } => be_bytes_u16(
                speed,
            ) + seq![accel] + be_bytes_i24(abs_axis),
            _ => seq![],
        }
    }

    /// The opcode byte followed by the field bytes.
    pub open spec fn spec_body(self) -> Seq<u8> {
        seq![self.spec_opcode().spec_code()] + self.spec_fields()
    }

    /// The data of the frame that carries this command to `id`: the body, then its check byte.
    pub open spec fn spec_frame_data(self, id: FrameId) -> Seq<u8> {
        self.spec_body().push(frame_checksum(id, self.spec_body()))
    }
}

/// Big-endian bytes of `v`.
fn be_u16(v: u16) -> (r: (u8, u8))
    ensures
        seq![r.0, r.1] == be_bytes_u16(v),
{
    let r = ((v / 0x100) as u8, (v % 0x100) as u8);
    assert(seq![r.0, r.1] =~= be_bytes_u16(v));
    r
}

/// Big-endian bytes of the low 24 bits of `v`.
fn be_i24(v: i32) -> (r: (u8, u8, u8))
    requires
        in_i24(v),
    ensures
        seq![r.0, r.1, r.2] == be_bytes_i24(v),
{
    let u: u32 = if v < 0 {
        (v + 0x100_0000) as u32
    } else {
        v as u32
    };
    assert(u == v as int % 0x100_0000);
    let r = ((u / 0x1_0000) as u8, ((u / 0x100) % 0x100) as u8, (u % 0x100) as u8);
    assert(seq![r.0, r.1, r.2] =~= be_bytes_i24(v));
    r
}

/// The direction in the top bit, over the high byte of the speed.
fn dir_speed(dir: Direction, speed: u16) -> (r: u8)
    ensures
        r == dir_speed_byte(dir, speed),
{
    let d = dir.code();
    let hi = (speed / 0x100) as u8;
    assert(d <= 1 ==> (d << 7u8) | hi == if d == 1 && hi < 0x80 {
        (hi + 0x80) as u8
    } else {
        hi
    }) by (bit_vector);
    (d << 7) | hi
}

impl ServoRequest {
    /// Encodes this command into a frame addressed to `id`: the opcode, the
    /// fields, then the check byte. Fails when a numeric field is out of range.
    pub fn to_frame(&self, id: FrameId) -> (r: Result<Frame, EncodeError>)
        ensures
            self.spec_valid() ==> (r matches Ok(f) && f.id == id && f.data@ == self.spec_frame_data(id)),
            !self.spec_valid() ==> r == Err::<Frame, EncodeError>(EncodeError::FieldOutOfRange),
            r matches Ok(f) ==> f.data@.len() <= MAX_FRAME_LEN,
    {
        // Every arm leaves a zero byte at the end for the check byte.
        let data: Vec<u8> = match *self {
            ServoRequest::ReadEncoderValueCarry => vec![ServoOpcode::ReadEncoderValueCarry.code(), 0],
            ServoRequest::ReadEncoderValueAddition => vec![ServoOpcode::ReadEncoderValueAddition.code(), 0],
            ServoRequest::ReadSpeed => vec![ServoOpcode::ReadSpeed.code(), 0],
            ServoRequest::ReadPulses => vec![ServoOpcode::ReadPulses.code(), 0],
            ServoRequest::ReadIOPorts => vec![ServoOpcode::ReadIOPorts.code(), 0],
            ServoRequest::ReadError => vec![ServoOpcode::ReadError.code(), 0],
            ServoRequest::ReadEnPin => vec![ServoOpcode::ReadEnPin.code(), 0],
            ServoRequest::ReadGoBackToZeroOnPowerOnStatus => vec![ServoOpcode::ReadGoBackToZeroOnPowerOnStatus.code(), 0],
            ServoRequest::ReleaseMotorShaft => vec![ServoOpcode::ReleaseMotorShaft.code(), 0],
            ServoRequest::ReadMotorShaftLockedRotor => vec![ServoOpcode::ReadMotorShaftLockedRotor.code(), 0],
            ServoRequest::Calibrate => vec![ServoOpcode::Calibrate.code(), 0],
            ServoRequest::GoHome => vec![ServoOpcode::GoHome.code(), 0],
            ServoRequest::SetAxisZero => vec![ServoOpcode::SetAxisZero.code(), 0],
            ServoRequest::RestoreDefaults => vec![ServoOpcode::RestoreDefaults.code(), 0],
            ServoRequest::QueryStatus => vec![ServoOpcode::QueryStatus.code(), 0],
            ServoRequest::SetWorkMode { work_mode } => vec![ServoOpcode::SetWorkMode.code(), work_mode.code(), 0],
            ServoRequest::SetCurrent { current } => {
                let (b0, b1) = be_u16(current);
                vec![ServoOpcode::SetCurrent.code(), b0, b1, 0]
            },
            ServoRequest::SetSubdivision { microsteps } => vec![ServoOpcode::SetSubdivision.code(), microsteps, 0],
            ServoRequest::SetEnPinActiveMode { active } => vec![ServoOpcode::SetEnPinActiveMode.code(), active.code(), 0],
            ServoRequest::SetDir { dir } => vec![ServoOpcode::SetDir.code(), dir.code(), 0],
            ServoRequest::SetAutoSSD { enable } => vec![ServoOpcode::SetAutoSSD.code(), enable as u8, 0],
            ServoRequest::SetMotorShaftLockedRotor { enable } => vec![ServoOpcode::SetMotorShaftLockedRotor.code(), enable as u8, 0],
            ServoRequest::SetSubdivisionInterpolation { enable } => vec![ServoOpcode::SetSubdivisionInterpolation.code(), enable as u8, 0],
            ServoRequest::SetCanEnableResponses { enable } => vec![ServoOpcode::SetCanEnableResponses.code(), enable as u8, 0],
            ServoRequest::SetKeyLocked { enable } => vec![ServoOpcode::SetKeyLocked.code(), enable as u8, 0],
            ServoRequest::SetCanBitRate { bit_rate } => vec![ServoOpcode::SetCanBitRate.code(), bit_rate.code(), 0],
            ServoRequest::SetCanId { id: bus_id } => {
                if bus_id > 0x7ff {
                    return Err(EncodeError::FieldOutOfRange);
                }
                let (b0, b1) = be_u16(bus_id);
                vec![ServoOpcode::SetCanId.code(), b0, b1, 0]
            },
            ServoRequest::SetGroupId { id: bus_id } => {
                if bus_id > 0x7ff {
                    return Err(EncodeError::FieldOutOfRange);
                }
                let (b0, b1) = be_u16(bus_id);
                vec![ServoOpcode::SetGroupId.code(), b0, b1, 0]
            },
            ServoRequest::SetHome { home_trig, home_dir, home_speed, end_limit } => {
                if home_speed > 3000 {
                    return Err(EncodeError::FieldOutOfRange);
                }
                let (b0, b1) = be_u16(home_speed);
                vec![
                    ServoOpcode::SetHome.code(),
                    home_trig.code(),
                    home_dir.code(),
                    b0,
                    b1,
                    end_limit as u8,
                    0,
                ]
            },
            ServoRequest::SetZeroOnPoweronMode { zero_mode, enable, speed, dir } => vec![
                ServoOpcode::SetZeroOnPowerOnMode.code(),
                zero_mode.code(),
                enable as u8,
                speed.code(),
                dir.code(),
                0,
            ],
            ServoRequest::Enable { enabled } => vec![ServoOpcode::Enable.code(), enabled as u8, 0],
            ServoRequest::RunSpeedMode { dir, speed, acc } => vec![
                ServoOpcode::RunSpeedMode.code(),
                dir_speed(dir, speed),
                (speed % 0x100) as u8,
                acc,
                0,
            ],
            ServoRequest::SaveRunModeParams { save_state } => vec![ServoOpcode::SaveRunModeParams.code(), save_state.code(), 0],
            ServoRequest::RunPositionRelativePulsesMode { dir, speed, acc, pulses } => {
                let (b0, b1) = be_u16(pulses);
                vec![
                    ServoOpcode::RunPositionRelativePulsesMode.code(),
                    dir_speed(dir, speed),
                    (speed % 0x100) as u8,
                    acc,
                    b0,
                    b1,
                    0,
                ]
            },
            ServoRequest::RunPositionRelativeMotionMode { speed, acc, rel_axis } => {
                if rel_axis < -0x80_0000 || rel_axis >= 0x80_0000 {
                    return Err(EncodeError::FieldOutOfRange);
                }
                let (s0, s1) = be_u16(speed);
                let (b1, b2, b3) = be_i24(rel_axis);
                vec![ServoOpcode::RunPositionRelativeMotionMode.code(), s0, s1, acc, b1, b2, b3, 0]
            },
            ServoRequest::RunPositionAbsoluteMotionMode { speed, accel, abs_axis } => {
                if abs_axis < -0x80_0000 || abs_axis >= 0x80_0000 {
                    return Err(EncodeError::FieldOutOfRange);
                }
                let (s0, s1) = be_u16(speed);
                let (b1, b2, b3) = be_i24(abs_axis);
                vec![ServoOpcode::RunPositionAbsoluteMotionMode.code(), s0, s1, accel, b1, b2, b3, 0]
            },
        };
        assert(data@ =~= self.spec_body().push(0));
        assert(data@.drop_last() =~= self.spec_body());
        Ok(Self::add_crc(id, data))
    }

    /// Replaces the trailing zero of `data` with the check byte of the bytes before it.
    fn add_crc(id: FrameId, data: Vec<u8>) -> (f: Frame)
        requires
            1 <= data@.len() <= MAX_FRAME_LEN,
            data@.last() == 0,
        ensures
            f.id == id,
            f.data@ == data@.drop_last().push(frame_checksum(id, data@.drop_last())),
    {
        let ghost body = data@.drop_last();
        let mut data = data;
        let last = data.len() - 1;
        let crc = compute_crc(id, data.as_slice().split_at(last).0);
        data[last] = crc;
        assert(data@ =~= body.push(frame_checksum(id, body)));
        Frame { id, data }
    }
}

/// The status enumeration whose raw value failed to decode.
#[derive(Copy, Clone, Debug, PartialEq, Eq, Structural)]
pub enum StatusField {
    ProgressStatus,
    /// The progress of a go-home command, which has its own value mapping.
    GoHomeProgress,
    MotionStatus,
    MotorStatus,
}

/// Why a reply frame could not be decoded.
#[derive(Copy, Clone, Debug, PartialEq, Eq, Structural)]
pub enum DecodeError {
    /// The frame holds no byte at all, so not even a check byte.
    EmptyFrame,
    /// The check byte differs from the one computed over the rest of the frame.
    ChecksumMismatch { expected: u8, actual: u8 },
    /// The frame holds only its check byte.
    MissingOpcode,
    UnknownOpcode { opcode: u8 },
    /// Fewer payload bytes than the reply to `opcode` needs.
    PayloadTooShort { opcode: ServoOpcode, len: usize },
    InvalidEnumValue { field: StatusField, value: u8 },
}

pub open spec fn u16_of(a: u8, b: u8) -> int {
    a * 0x100 + b
}

pub open spec fn u32_of(a: u8, b: u8, c: u8, d: u8) -> int {
    a * 0x100_0000 + b * 0x1_0000 + c * 0x100 + d
}

/// A big-endian 16-bit two's-complement value.
pub open spec fn i16_of(a: u8, b: u8) -> i16 {
    let u = u16_of(a, b);
    (if u >= 0x8000 {
        u - 0x1_0000
    } else {
        u
    }) as i16
}

/// A big-endian 32-bit two's-complement value.
pub open spec fn i32_of(a: u8, b: u8, c: u8, d: u8) -> i32 {
    let u = u32_of(a, b, c, d);
    (if u >= 0x8000_0000 {
        u - 0x1_0000_0000
    } else {
        u
    }) as i32
}

/// A big-endian 48-bit encoder value. The sign is taken as negative only
/// when the leading byte exceeds `0x80`; a leading `0x80` reads as positive.
pub open spec fn encoder_value(b0: u8, b1: u8, b2: u8, b3: u8, b4: u8, b5: u8) -> i64 {
    let u = b0 * 0x100_0000_0000 + b1 * 0x1_0000_0000 + u32_of(b2, b3, b4, b5);
    (if b0 > 0x80 {
        u - 0x1_0000_0000_0000
    } else {
        u
    }) as i64
}

/// Whether the bit of weight `w` (a power of two) is set in `v`.
pub open spec fn bit_set(v: u8, w: int) -> bool {
    (v as int / w) % 2 == 1
}

/// The go-home reply's own mapping: 0, 1, 2 stand for fail, busy, success.
pub open spec fn go_home_progress(v: u8) -> Option<ProgressStatus> {
    if v == 0 {
        Some(ProgressStatus::Fail)
    } else if v == 1 {
        Some(ProgressStatus::Busy)
    } else if v == 2 {
        Some(ProgressStatus::Success)
    } else {
        None
    }
}

/// How many payload bytes the reply to `op` needs.
pub open spec fn payload_len(op: ServoOpcode) -> nat {
    match op {
        ServoOpcode::ReadEncoderValueCarry => 6,
        ServoOpcode::ReadEncoderValueAddition => 6,
        ServoOpcode::ReadSpeed => 2,
        ServoOpcode::ReadPulses => 4,
        ServoOpcode::ReadError => 4,
        _ => 1,
    }
}

/// The reply to `op` read from payload `p`, which holds at least `payload_len(op)` bytes.
pub open spec fn parse_payload(op: ServoOpcode, p: Seq<u8>) -> Result<ServoResponse, DecodeError> {
    match op {
            ServoOpcode::SetWorkMode => Ok(ServoResponse::SetWorkMode { success: p[0] != 0 }),
            ServoOpcode::SetCurrent => Ok(ServoResponse::SetCurrent { success: p[0] != 0 }),
            ServoOpcode::SetSubdivision => Ok(ServoResponse::SetSubdivision { success: p[0] != 0 }),
            ServoOpcode::SetEnPinActiveMode => Ok(ServoResponse::SetEnPinActiveMode { success: p[0] != 0 }),
            ServoOpcode::SetDir => Ok(ServoResponse::SetDir { success: p[0] != 0 }),
            ServoOpcode::SetAutoSSD => Ok(ServoResponse::SetAutoSSD { success: p[0] != 0 }),
            ServoOpcode::SetMotorShaftLockedRotor => Ok(ServoResponse::SetMotorShaftLockedRotor { success: p[0] != 0 }),
            ServoOpcode::SetSubdivisionInterpolation => Ok(ServoResponse::SetSubdivisionInterpolation { success: p[0] != 0 }),
            ServoOpcode::SetCanBitRate => Ok(ServoResponse::SetCanBitRate { success: p[0] != 0 }),
            ServoOpcode::SetCanId => Ok(ServoResponse::SetCanId { success: p[0] != 0 }),
            ServoOpcode::SetCanEnableResponses => Ok(ServoResponse::SetCanEnableResponses { success: p[0] != 0 }),
            ServoOpcode::SetKeyLocked => Ok(ServoResponse::SetKeyLocked { success: p[0] != 0 }),
            ServoOpcode::SetGroupId => Ok(ServoResponse::SetGroupId { success: p[0] != 0 }),
            ServoOpcode::SetHome => Ok(ServoResponse::SetHome { success: p[0] != 0 }),
            ServoOpcode::SetAxisZero => Ok(ServoResponse::SetAxisZero { success: p[0] != 0 }),
            ServoOpcode::RestoreDefaults => Ok(ServoResponse::RestoreDefaults { success: p[0] != 0 }),
            ServoOpcode::Enable => Ok(ServoResponse::Enable { success: p[0] != 0 }),
            ServoOpcode::SaveRunModeParams => Ok(ServoResponse::SaveRunModeParams { success: p[0] != 0 }),
            ServoOpcode::SetZeroOnPowerOnMode => Ok(ServoResponse::SetZeroOnPowerOnMode { success: p[0] != 0 }),
            ServoOpcode::ReleaseMotorShaft => Ok(ServoResponse::ReleaseMotorShaft { success: p[0] != 0 }),
            ServoOpcode::ReadEnPin => Ok(ServoResponse::ReadEnPin { enabled: p[0] != 0 }),
            ServoOpcode::ReadMotorShaftLockedRotor => Ok(ServoResponse::ReadMotorShaftLockedRotor { locked: p[0] != 0 }),
            ServoOpcode::RunSpeedMode => match MotionStatus::spec_from_code(p[0]) {
                Some(status) => Ok(ServoResponse::RunSpeedMode { status }),
                None => Err(DecodeError::InvalidEnumValue { field: StatusField::MotionStatus, value: p[0] }),
            },
            ServoOpcode::RunPositionRelativePulsesMode => match MotionStatus::spec_from_code(p[0]) {
                Some(status) => Ok(ServoResponse::RunPositionRelativePulsesMode { status }),
                None => Err(DecodeError::InvalidEnumValue { field: StatusField::MotionStatus, value: p[0] }),
            },
            ServoOpcode::RunPositionRelativeMotionMode => match MotionStatus::spec_from_code(p[0]) {
                Some(status) => Ok(ServoResponse::RunPositionRelativeMotionMode { status }),
                None => Err(DecodeError::InvalidEnumValue { field: StatusField::MotionStatus, value: p[0] }),
            },
            ServoOpcode::RunPositionAbsoluteMotionMode => match MotionStatus::spec_from_code(p[0]) {
                Some(status) => Ok(ServoResponse::RunPositionAbsoluteMotionMode { status }),
                None => Err(DecodeError::InvalidEnumValue { field: StatusField::MotionStatus, value: p[0] }),
            },
            ServoOpcode::ReadGoBackToZeroOnPowerOnStatus => match ProgressStatus::spec_from_code(p[0]) {
                Some(status) => Ok(ServoResponse::ReadGoBackToZeroOnPowerOnStatus { status }),
                None => Err(DecodeError::InvalidEnumValue { field: StatusField::ProgressStatus, value: p[0] }),
            },
            ServoOpcode::Calibrate => match ProgressStatus::spec_from_code(p[0]) {
                Some(status) => Ok(ServoResponse::Calibrate { status }),
                None => Err(DecodeError::InvalidEnumValue { field: StatusField::ProgressStatus, value: p[0] }),
            },
            ServoOpcode::GoHome => match go_home_progress(p[0]) {
                Some(progress) => Ok(ServoResponse::GoHome { progress }),
                None => Err(DecodeError::InvalidEnumValue { field: StatusField::GoHomeProgress, value: p[0] }),
            },
            ServoOpcode::QueryStatus => if p[0] == 0 {
                Ok(ServoResponse::QueryStatus { status: None })
            } else {
                match MotorStatus::spec_from_code(p[0]) {
                    Some(s) => Ok(ServoResponse::QueryStatus { status: Some(s) }),
                    None => Err(DecodeError::InvalidEnumValue { field: StatusField::MotorStatus, value: p[0] }),
                }
            },
            ServoOpcode::ReadEncoderValueCarry => Ok(ServoResponse::ReadEncoderValueCarry {
                carry: i32_of(p[0], p[1], p[2], p[3]),
                value: u16_of(p[4], p[5]) as u16,
            }),
            ServoOpcode::ReadEncoderValueAddition => Ok(ServoResponse::ReadEncoderValueAddition {
                value: encoder_value(p[0], p[1], p[2], p[3], p[4], p[5]),
            }),
            ServoOpcode::ReadSpeed => Ok(ServoResponse::ReadSpeed { speed: i16_of(p[0], p[1]) }),
            ServoOpcode::ReadPulses => Ok(ServoResponse::ReadPulses { pulses: i32_of(p[0], p[1], p[2], p[3]) }),
            ServoOpcode::ReadError => Ok(ServoResponse::ReadError { error: i32_of(p[0], p[1], p[2], p[3]) }),
            ServoOpcode::ReadIOPorts => Ok(ServoResponse::ReadIOPorts {
                out_1: bit_set(p[0], 4),
                out_2: bit_set(p[0], 8),
                in_1: bit_set(p[0], 1),
                in_2: bit_set(p[0], 2),
            }),
    }
}

/// What a reply frame with data `data` decodes to, when checked against identifier `id`.
pub open spec fn spec_decode(id: FrameId, data: Seq<u8>) -> Result<ServoResponse, DecodeError> {
    if data.len() == 0 {
        Err(DecodeError::EmptyFrame)
    } else {
        let body = data.drop_last();
        let expected = frame_checksum(id, body);
        if data.last() != expected {
            Err(DecodeError::ChecksumMismatch { expected, actual: data.last() })
        } else if body.len() == 0 {
            Err(DecodeError::MissingOpcode)
        } else {
            match ServoOpcode::spec_from_code(body[0]) {
                None => Err(DecodeError::UnknownOpcode { opcode: body[0] }),
                Some(op) => {
                    let p = body.drop_first();
                    if p.len() < payload_len(op) {
                        Err(DecodeError::PayloadTooShort { opcode: op, len: p.len() as usize })
                    } else {
                        parse_payload(op, p)
                    }
                },
            }
        }
    }
}

fn read_u16(a: u8, b: u8) -> (r: u16)
    ensures
        r == u16_of(a, b),
{
    a as u16 * 0x100 + b as u16
}

fn read_i16(a: u8, b: u8) -> (r: i16)
    ensures
        r == i16_of(a, b),
{
    let u = read_u16(a, b);
    if u >= 0x8000 {
        (u as i32 - 0x1_0000) as i16
    } else {
        u as i16
    }
}

fn read_i32(a: u8, b: u8, c: u8, d: u8) -> (r: i32)
    ensures
        r == i32_of(a, b, c, d),
{
    let u: u32 = a as u32 * 0x100_0000 + b as u32 * 0x1_0000 + c as u32 * 0x100 + d as u32;
    if u >= 0x8000_0000 {
        (u as i64 - 0x1_0000_0000) as i32
    } else {
        u as i32
    }
}

fn read_encoder_value(b0: u8, b1: u8, b2: u8, b3: u8, b4: u8, b5: u8) -> (r: i64)
    ensures
        r == encoder_value(b0, b1, b2, b3, b4, b5),
{
    let u: u64 = b0 as u64 * 0x100_0000_0000 + b1 as u64 * 0x1_0000_0000 + b2 as u64 * 0x100_0000
        + b3 as u64 * 0x1_0000 + b4 as u64 * 0x100 + b5 as u64;
    if b0 > 0x80 {
        u as i64 - 0x1_0000_0000_0000
    } else {
        u as i64
    }
}

/// Checks the trailing check byte of `data` and returns the bytes before it.
fn check_crc(id: FrameId, data: &[u8]) -> (r: Result<&[u8], DecodeError>)
    ensures
        data@.len() == 0 ==> r == Err::<&[u8], DecodeError>(DecodeError::EmptyFrame),
        data@.len() > 0 && data@.last() != frame_checksum(id, data@.drop_last()) ==> r == Err::<
            &[u8],
            DecodeError,
        >(
            DecodeError::ChecksumMismatch {
                expected: frame_checksum(id, data@.drop_last()),
                actual: data@.last(),
            },
        ),
        data@.len() > 0 && data@.last() == frame_checksum(id, data@.drop_last()) ==> (r matches Ok(
            rest,
        ) && rest@ == data@.drop_last()),
{
    if data.len() == 0 {
        return Err(DecodeError::EmptyFrame);
    }
    let (rest, tail) = data.split_at(data.len() - 1);
    assert(rest@ =~= data@.drop_last());
    let actual = tail[0];
    let expected = compute_crc(id, rest);
    if actual != expected {
        return Err(DecodeError::ChecksumMismatch { expected, actual });
    }
    Ok(rest)
}

impl ServoResponse {
    /// Decodes a reply frame addressed to `id`: checks the check byte, reads
    /// the opcode, then reads the payload that the opcode calls for. Bytes
    /// beyond what the reply needs are ignored.
    #[verifier::rlimit(40)]
    pub fn from_frame(id: FrameId, frame: &Frame) -> (r: Result<ServoResponse, DecodeError>)
        ensures
            r == spec_decode(id, frame.data@),
    {
        let body = match check_crc(id, frame.data.as_slice()) {
            Ok(body) => body,
            Err(e) => {
                return Err(e);
            },
        };
        if body.len() == 0 {
            return Err(DecodeError::MissingOpcode);
        }
        let (head, p) = body.split_at(1);
        let opcode = match ServoOpcode::from_code(head[0]) {
            Some(op) => op,
            None => {
                return Err(DecodeError::UnknownOpcode { opcode: head[0] });
            },
        };
        assert(p@ =~= body@.drop_first());
        match opcode {
            ServoOpcode::SetWorkMode => {
                if p.len() >= 1 {
                    return Ok(ServoResponse::SetWorkMode { success: p[0] != 0 });
                }
            },
            ServoOpcode::SetCurrent => {
                if p.len() >= 1 {
                    return Ok(ServoResponse::SetCurrent { success: p[0] != 0 });
                }
            },
            ServoOpcode::SetSubdivision => {
                if p.len() >= 1 {
                    return Ok(ServoResponse::SetSubdivision { success: p[0] != 0 });
                }
            },
            ServoOpcode::SetEnPinActiveMode => {
                if p.len() >= 1 {
                    return Ok(ServoResponse::SetEnPinActiveMode { success: p[0] != 0 });
                }
            },
            ServoOpcode::SetDir => {
                if p.len() >= 1 {
                    return Ok(ServoResponse::SetDir { success: p[0] != 0 });
                }
            },
            ServoOpcode::SetAutoSSD => {
                if p.len() >= 1 {
                    return Ok(ServoResponse::SetAutoSSD { success: p[0] != 0 });
                }
            },
            ServoOpcode::SetMotorShaftLockedRotor => {
                if p.len() >= 1 {
                    return Ok(ServoResponse::SetMotorShaftLockedRotor { success: p[0] != 0 });
                }
            },
            ServoOpcode::SetSubdivisionInterpolation => {
                if p.len() >= 1 {
                    return Ok(ServoResponse::SetSubdivisionInterpolation { success: p[0] != 0 });
                }
            },
            ServoOpcode::SetCanBitRate => {
                if p.len() >= 1 {
                    return Ok(ServoResponse::SetCanBitRate { success: p[0] != 0 });
                }
            },
            ServoOpcode::SetCanId => {
                if p.len() >= 1 {
                    return Ok(ServoResponse::SetCanId { success: p[0] != 0 });
                }
            },
            ServoOpcode::SetCanEnableResponses => {
                if p.len() >= 1 {
                    return Ok(ServoResponse::SetCanEnableResponses { success: p[0] != 0 });
                }
            },
            ServoOpcode::SetKeyLocked => {
                if p.len() >= 1 {
                    return Ok(ServoResponse::SetKeyLocked { success: p[0] != 0 });
                }
            },
            ServoOpcode::SetGroupId => {
                if p.len() >= 1 {
                    return Ok(ServoResponse::SetGroupId { success: p[0] != 0 });
                }
            },
            ServoOpcode::SetHome => {
                if p.len() >= 1 {
                    return Ok(ServoResponse::SetHome { success: p[0] != 0 });
                }
            },
            ServoOpcode::SetAxisZero => {
                if p.len() >= 1 {
                    return Ok(ServoResponse::SetAxisZero { success: p[0] != 0 });
                }
            },
            ServoOpcode::RestoreDefaults => {
                if p.len() >= 1 {
                    return Ok(ServoResponse::RestoreDefaults { success: p[0] != 0 });
                }
            },
            ServoOpcode::Enable => {
                if p.len() >= 1 {
                    return Ok(ServoResponse::Enable { success: p[0] != 0 });
                }
            },
            ServoOpcode::SaveRunModeParams => {
                if p.len() >= 1 {
                    return Ok(ServoResponse::SaveRunModeParams { success: p[0] != 0 });
                }
            },
            ServoOpcode::SetZeroOnPowerOnMode => {
                if p.len() >= 1 {
                    return Ok(ServoResponse::SetZeroOnPowerOnMode { success: p[0] != 0 });
                }
            },
            ServoOpcode::ReleaseMotorShaft => {
                if p.len() >= 1 {
                    return Ok(ServoResponse::ReleaseMotorShaft { success: p[0] != 0 });
                }
            },
            ServoOpcode::ReadEnPin => {
                if p.len() >= 1 {
                    return Ok(ServoResponse::ReadEnPin { enabled: p[0] != 0 });
                }
            },
            ServoOpcode::ReadMotorShaftLockedRotor => {
                if p.len() >= 1 {
                    return Ok(ServoResponse::ReadMotorShaftLockedRotor { locked: p[0] != 0 });
                }
            },
            ServoOpcode::RunSpeedMode => {
                if p.len() >= 1 {
                    return match MotionStatus::from_code(p[0]) {
                        Some(status) => Ok(ServoResponse::RunSpeedMode { status }),
                        None => Err(DecodeError::InvalidEnumValue { field: StatusField::MotionStatus, value: p[0] }),
                    };
                }
            },
            ServoOpcode::RunPositionRelativePulsesMode => {
                if p.len() >= 1 {
                    return match MotionStatus::from_code(p[0]) {
                        Some(status) => Ok(ServoResponse::RunPositionRelativePulsesMode { status }),
                        None => Err(DecodeError::InvalidEnumValue { field: StatusField::MotionStatus, value: p[0] }),
                    };
                }
            },
            ServoOpcode::RunPositionRelativeMotionMode => {
                if p.len() >= 1 {
                    return match MotionStatus::from_code(p[0]) {
                        Some(status) => Ok(ServoResponse::RunPositionRelativeMotionMode { status }),
                        None => Err(DecodeError::InvalidEnumValue { field: StatusField::MotionStatus, value: p[0] }),
                    };
                }
            },
            ServoOpcode::RunPositionAbsoluteMotionMode => {
                if p.len() >= 1 {
                    return match MotionStatus::from_code(p[0]) {
                        Some(status) => Ok(ServoResponse::RunPositionAbsoluteMotionMode { status }),
                        None => Err(DecodeError::InvalidEnumValue { field: StatusField::MotionStatus, value: p[0] }),
                    };
                }
            },
            ServoOpcode::ReadGoBackToZeroOnPowerOnStatus => {
                if p.len() >= 1 {
                    return match ProgressStatus::from_code(p[0]) {
                        Some(status) => Ok(ServoResponse::ReadGoBackToZeroOnPowerOnStatus { status }),
                        None => Err(DecodeError::InvalidEnumValue { field: StatusField::ProgressStatus, value: p[0] }),
                    };
                }
            },
            ServoOpcode::Calibrate => {
                if p.len() >= 1 {
                    return match ProgressStatus::from_code(p[0]) {
                        Some(status) => Ok(ServoResponse::Calibrate { status }),
                        None => Err(DecodeError::InvalidEnumValue { field: StatusField::ProgressStatus, value: p[0] }),
                    };
                }
            },
            ServoOpcode::GoHome => {
                if p.len() >= 1 {
                    let progress = if p[0] == 0 {
                        ProgressStatus::Fail
                    } else if p[0] == 1 {
                        ProgressStatus::Busy
                    } else if p[0] == 2 {
                        ProgressStatus::Success
                    } else {
                        return Err(DecodeError::InvalidEnumValue { field: StatusField::GoHomeProgress, value: p[0] });
                    };
                    return Ok(ServoResponse::GoHome { progress });
                }
            },
            ServoOpcode::QueryStatus => {
                if p.len() >= 1 {
                    let status = if p[0] == 0 {
                        None
                    } else {
                        match MotorStatus::from_code(p[0]) {
                            Some(s) => Some(s),
                            None => {
                                return Err(DecodeError::InvalidEnumValue { field: StatusField::MotorStatus, value: p[0] });
                            },
                        }
                    };
                    return Ok(ServoResponse::QueryStatus { status });
                }
            },
            ServoOpcode::ReadEncoderValueCarry => {
                if p.len() >= 6 {
                    return Ok(ServoResponse::ReadEncoderValueCarry {
                        carry: read_i32(p[0], p[1], p[2], p[3]),
                        value: read_u16(p[4], p[5]),
                    });
                }
            },
            ServoOpcode::ReadEncoderValueAddition => {
                if p.len() >= 6 {
                    return Ok(ServoResponse::ReadEncoderValueAddition {
                        value: read_encoder_value(p[0], p[1], p[2], p[3], p[4], p[5]),
                    });
                }
            },
            ServoOpcode::ReadSpeed => {
                if p.len() >= 2 {
                    return Ok(ServoResponse::ReadSpeed { speed: read_i16(p[0], p[1]) });
                }
            },
            ServoOpcode::ReadPulses => {
                if p.len() >= 4 {
                    return Ok(ServoResponse::ReadPulses { pulses: read_i32(p[0], p[1], p[2], p[3]) });
                }
            },
            ServoOpcode::ReadError => {
                if p.len() >= 4 {
                    return Ok(ServoResponse::ReadError { error: read_i32(p[0], p[1], p[2], p[3]) });
                }
            },
            ServoOpcode::ReadIOPorts => {
                if p.len() >= 1 {
                    let status = p[0];
                    return Ok(ServoResponse::ReadIOPorts {
                        in_1: status % 2 != 0,
                        in_2: status / 2 % 2 != 0,
                        out_1: status / 4 % 2 != 0,
                        out_2: status / 8 % 2 != 0,
                    });
                }
            },
        }
        Err(DecodeError::PayloadTooShort { opcode, len: p.len() })
    }
}

/// The sign of a decoded encoder value follows its leading byte: non-negative
/// up to and including `0x80`, negative above it.
pub proof fn lemma_encoder_value_sign(b0: u8, b1: u8, b2: u8, b3: u8, b4: u8, b5: u8)
    ensures
        b0 <= 0x80 ==> encoder_value(b0, b1, b2, b3, b4, b5) >= 0,
        b0 > 0x80 ==> encoder_value(b0, b1, b2, b3, b4, b5) < 0,
{
}

/// Flipping any single bit of a frame whose check byte is right makes
/// decoding fail with a checksum mismatch.
pub proof fn lemma_bit_flip_detected(id: FrameId, data: Seq<u8>, i: int, bit: u8)
    requires
        data.len() > 0,
        data.last() == frame_checksum(id, data.drop_last()),
        0 <= i < data.len(),
        bit < 8,
    ensures
        spec_decode(id, data.update(i, data[i] ^ (1u8 << bit))) matches Err(
            DecodeError::ChecksumMismatch { .. },
        ),
{
    let a = data[i];
    assert(a ^ (1u8 << bit) != a) by (bit_vector)
        requires
            bit < 8,
    ;
    let flipped = data.update(i, a ^ (1u8 << bit));
    let body = data.drop_last();
    if i == data.len() - 1 {
        assert(flipped.drop_last() =~= body);
    } else {
        assert(flipped.drop_last() =~= body.update(i, a ^ (1u8 << bit)));
        lemma_checksum_detects_byte_change(id.spec_bytes(), body, i, a ^ (1u8 << bit));
    }
}

} // verus!
