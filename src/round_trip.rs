//! The wire format read both ways: replies laid out as a controller sends
//! them decode back to themselves, and the bytes of every encoded command
//! give back the command.

use vstd::prelude::*;

use crate::codec::{
    be_bytes_i24, bool_byte, dir_speed_byte, i16_of, i32_of, in_i24, spec_decode, u16_of, u32_of,
    encoder_value, DecodeError,
};
use crate::frame::{be_bytes_u16, be_bytes_u32, frame_checksum, FrameId};
use crate::servo_cmd::{
    CanBitRate, Direction, EnPinActiveMode, HomeTrig, MotorStatus, ProgressStatus, SaveState,
    ServoOpcode, ServoRequest, ServoResponse, WorkMode, ZeroMode, ZeroModeSpeed,
};

verus! {

/// Big-endian 16-bit two's complement.
pub open spec fn be_bytes_i16(v: i16) -> Seq<u8> {
    let u = v as int % 0x1_0000;
    seq![(u / 0x100) as u8, (u % 0x100) as u8]
}

/// Big-endian 32-bit two's complement.
pub open spec fn be_bytes_i32(v: i32) -> Seq<u8> {
    let u = v as int % 0x1_0000_0000;
    seq![
        (u / 0x100_0000) as u8,
        ((u / 0x1_0000) % 0x100) as u8,
        ((u / 0x100) % 0x100) as u8,
        (u % 0x100) as u8,
    ]
}

/// Big-endian 48-bit two's complement: the high 16 bits, then the low 32 bits.
pub open spec fn be_bytes_i48(v: i64) -> Seq<u8> {
    let u = v as int % 0x1_0000_0000_0000;
    be_bytes_u16((u / 0x1_0000_0000) as u16) + be_bytes_u32((u % 0x1_0000_0000) as u32)
}

/// The go-home reply's byte for each progress value.
pub open spec fn go_home_code(p: ProgressStatus) -> u8 {
    match p {
        ProgressStatus::Fail => 0,
        ProgressStatus::Busy => 1,
        ProgressStatus::Success => 2,
    }
}

/// A big-endian 24-bit two's-complement value.
pub open spec fn i24_of(a: u8, b: u8, c: u8) -> i32 {
    let u = a * 0x1_0000 + b * 0x100 + c;
    (if u >= 0x80_0000 {
        u - 0x100_0000
    } else {
        u
    }) as i32
}

impl ServoResponse {
    pub open spec fn spec_opcode(self) -> ServoOpcode {
        match self {
            ServoResponse::SetWorkMode { .. } => ServoOpcode::SetWorkMode,
            ServoResponse::SetCurrent { .. } => ServoOpcode::SetCurrent,
            ServoResponse::SetSubdivision { .. } => ServoOpcode::SetSubdivision,
            ServoResponse::SetEnPinActiveMode { .. } => ServoOpcode::SetEnPinActiveMode,
            ServoResponse::SetDir { .. } => ServoOpcode::SetDir,
            ServoResponse::SetAutoSSD { .. } => ServoOpcode::SetAutoSSD,
            ServoResponse::SetMotorShaftLockedRotor { .. } => ServoOpcode::SetMotorShaftLockedRotor,
            ServoResponse::SetSubdivisionInterpolation { .. } => ServoOpcode::SetSubdivisionInterpolation,
            ServoResponse::SetCanBitRate { .. } => ServoOpcode::SetCanBitRate,
            ServoResponse::SetCanId { .. } => ServoOpcode::SetCanId,
            ServoResponse::SetCanEnableResponses { .. } => ServoOpcode::SetCanEnableResponses,
            ServoResponse::SetKeyLocked { .. } => ServoOpcode::SetKeyLocked,
            ServoResponse::SetGroupId { .. } => ServoOpcode::SetGroupId,
            ServoResponse::SetHome { .. } => ServoOpcode::SetHome,
            ServoResponse::SetAxisZero { .. } => ServoOpcode::SetAxisZero,
            ServoResponse::SetZeroOnPowerOnMode { .. } => ServoOpcode::SetZeroOnPowerOnMode,
            ServoResponse::RestoreDefaults { .. } => ServoOpcode::RestoreDefaults,
            ServoResponse::Enable { .. } => ServoOpcode::Enable,
            ServoResponse::SaveRunModeParams { .. } => ServoOpcode::SaveRunModeParams,
            ServoResponse::ReleaseMotorShaft { .. } => ServoOpcode::ReleaseMotorShaft,
            ServoResponse::ReadEnPin { .. } => ServoOpcode::ReadEnPin,
            ServoResponse::ReadMotorShaftLockedRotor { .. } => ServoOpcode::ReadMotorShaftLockedRotor,
            ServoResponse::RunSpeedMode { .. } => ServoOpcode::RunSpeedMode,
            ServoResponse::RunPositionRelativePulsesMode { .. } => ServoOpcode::RunPositionRelativePulsesMode,
            ServoResponse::RunPositionRelativeMotionMode { .. } => ServoOpcode::RunPositionRelativeMotionMode,
            ServoResponse::RunPositionAbsoluteMotionMode { .. } => ServoOpcode::RunPositionAbsoluteMotionMode,
            ServoResponse::ReadGoBackToZeroOnPowerOnStatus { .. } => ServoOpcode::ReadGoBackToZeroOnPowerOnStatus,
            ServoResponse::Calibrate { .. } => ServoOpcode::Calibrate,
            ServoResponse::GoHome { .. } => ServoOpcode::GoHome,
            ServoResponse::QueryStatus { .. } => ServoOpcode::QueryStatus,
            ServoResponse::ReadEncoderValueCarry { .. } => ServoOpcode::ReadEncoderValueCarry,
            ServoResponse::ReadEncoderValueAddition { .. } => ServoOpcode::ReadEncoderValueAddition,
            ServoResponse::ReadSpeed { .. } => ServoOpcode::ReadSpeed,
            ServoResponse::ReadPulses { .. } => ServoOpcode::ReadPulses,
            ServoResponse::ReadError { .. } => ServoOpcode::ReadError,
            ServoResponse::ReadIOPorts { .. } => ServoOpcode::ReadIOPorts,
        }
    }

    /// The payload as a controller lays it out.
    pub open spec fn spec_payload(self) -> Seq<u8> {
        match self {
            ServoResponse::SetWorkMode { success } => seq![bool_byte(success)],
            ServoResponse::SetCurrent { success } => seq![bool_byte(success)],
            ServoResponse::SetSubdivision { success } => seq![bool_byte(success)],
            ServoResponse::SetEnPinActiveMode { success } => seq![bool_byte(success)],
            ServoResponse::SetDir { success } => seq![bool_byte(success)],
            ServoResponse::SetAutoSSD { success } => seq![bool_byte(success)],
            ServoResponse::SetMotorShaftLockedRotor { success } => seq![bool_byte(success)],
            ServoResponse::SetSubdivisionInterpolation { success } => seq![bool_byte(success)],
            ServoResponse::SetCanBitRate { success } => seq![bool_byte(success)],
            ServoResponse::SetCanId { success } => seq![bool_byte(success)],
            ServoResponse::SetCanEnableResponses { success } => seq![bool_byte(success)],
            ServoResponse::SetKeyLocked { success } => seq![bool_byte(success)],
            ServoResponse::SetGroupId { success } => seq![bool_byte(success)],
            ServoResponse::SetHome { success } => seq![bool_byte(success)],
            ServoResponse::SetAxisZero { success } => seq![bool_byte(success)],
            ServoResponse::SetZeroOnPowerOnMode { success } => seq![bool_byte(success)],
            ServoResponse::RestoreDefaults { success } => seq![bool_byte(success)],
            ServoResponse::Enable { success } => seq![bool_byte(success)],
            ServoResponse::SaveRunModeParams { success } => seq![bool_byte(success)],
            ServoResponse::ReleaseMotorShaft { success } => seq![bool_byte(success)],
            ServoResponse::ReadEnPin { enabled } => seq![bool_byte(enabled)],
            ServoResponse::ReadMotorShaftLockedRotor { locked } => seq![bool_byte(locked)],
            ServoResponse::RunSpeedMode { status } => seq![status.spec_code()],
            ServoResponse::RunPositionRelativePulsesMode { status } => seq![status.spec_code()],
            ServoResponse::RunPositionRelativeMotionMode { status } => seq![status.spec_code()],
            ServoResponse::RunPositionAbsoluteMotionMode { status } => seq![status.spec_code()],
            ServoResponse::ReadGoBackToZeroOnPowerOnStatus { status } => seq![status.spec_code()],
            ServoResponse::Calibrate { status } => seq![status.spec_code()],
            ServoResponse::GoHome { progress } => seq![go_home_code(progress)],
            ServoResponse::QueryStatus { status } => match status {
                None => seq![0],
                Some(s) => seq![s.spec_code()],
            },
            ServoResponse::ReadEncoderValueCarry { carry, value } => be_bytes_i32(carry) + be_bytes_u16(value),
            ServoResponse::ReadEncoderValueAddition { value } => be_bytes_i48(value),
            ServoResponse::ReadSpeed { speed } => be_bytes_i16(speed),
            ServoResponse::ReadPulses { pulses } => be_bytes_i32(pulses),
            ServoResponse::ReadError { error } => be_bytes_i32(error),
            ServoResponse::ReadIOPorts { out_1, out_2, in_1, in_2 } => seq![
                (bool_byte(in_1) + 2 * bool_byte(in_2) + 4 * bool_byte(out_1) + 8 * bool_byte(out_2)) as u8,
            ],
        }
    }

    /// The data of a reply frame to `id`: opcode, payload, check byte.
    pub open spec fn spec_frame_data(self, id: FrameId) -> Seq<u8> {
        let body = seq![self.spec_opcode().spec_code()] + self.spec_payload();
        body.push(frame_checksum(id, body))
    }

    /// Whether the reply survives a trip through its own layout. Two replies do
    /// not: an encoder value whose leading byte would be `0x80`, which decodes
    /// as positive, and a status query that reports `MotorStopped`, whose code
    /// 0 decodes as no status.
    pub open spec fn spec_round_trips(self) -> bool {
        match self {
            ServoResponse::ReadEncoderValueAddition { value } => -0x8000_0000_0000 + 0x100_0000_0000
                <= value < 0x8000_0000_0000,
            ServoResponse::QueryStatus { status } => status != Some(MotorStatus::MotorStopped),
            _ => true,
        }
    }
}

impl ServoRequest {
    /// Whether the direction bit and the speed of a packed command keep
    /// apart: the speed must stay under `0x8000`.
    pub open spec fn spec_packs_apart(self) -> bool {
        match self {
            ServoRequest::RunSpeedMode { speed, .. } => speed < 0x8000,
            ServoRequest::RunPositionRelativePulsesMode { speed, .. } => speed < 0x8000,
            _ => true,
        }
    }
}

/// How many field bytes follow the opcode of a command.
pub open spec fn request_fields_len(op: ServoOpcode) -> nat {
    match op {
        ServoOpcode::SetCurrent | ServoOpcode::SetCanId | ServoOpcode::SetGroupId => 2,
        ServoOpcode::SetHome => 5,
        ServoOpcode::SetZeroOnPowerOnMode => 4,
        ServoOpcode::RunSpeedMode => 3,
        ServoOpcode::RunPositionRelativePulsesMode => 5,
        ServoOpcode::RunPositionRelativeMotionMode | ServoOpcode::RunPositionAbsoluteMotionMode => 6,
        ServoOpcode::SetWorkMode | ServoOpcode::SetSubdivision | ServoOpcode::SetEnPinActiveMode
        | ServoOpcode::SetDir | ServoOpcode::SetAutoSSD | ServoOpcode::SetMotorShaftLockedRotor
        | ServoOpcode::SetSubdivisionInterpolation | ServoOpcode::SetCanBitRate
        | ServoOpcode::SetCanEnableResponses | ServoOpcode::SetKeyLocked | ServoOpcode::Enable
        | ServoOpcode::SaveRunModeParams => 1,
        _ => 0,
    }
}

/// The command that the fields `f` after opcode `op` stand for, if any.
pub open spec fn parse_request_fields(op: ServoOpcode, f: Seq<u8>) -> Option<ServoRequest> {
    if f.len() != request_fields_len(op) {
        None
    } else {
        match op {
                ServoOpcode::ReadEncoderValueCarry => Some(ServoRequest::ReadEncoderValueCarry),
                ServoOpcode::ReadEncoderValueAddition => Some(ServoRequest::ReadEncoderValueAddition),
                ServoOpcode::ReadSpeed => Some(ServoRequest::ReadSpeed),
                ServoOpcode::ReadPulses => Some(ServoRequest::ReadPulses),
                ServoOpcode::ReadIOPorts => Some(ServoRequest::ReadIOPorts),
                ServoOpcode::ReadError => Some(ServoRequest::ReadError),
                ServoOpcode::ReadEnPin => Some(ServoRequest::ReadEnPin),
                ServoOpcode::ReadGoBackToZeroOnPowerOnStatus => Some(ServoRequest::ReadGoBackToZeroOnPowerOnStatus),
                ServoOpcode::ReleaseMotorShaft => Some(ServoRequest::ReleaseMotorShaft),
                ServoOpcode::ReadMotorShaftLockedRotor => Some(ServoRequest::ReadMotorShaftLockedRotor),
                ServoOpcode::Calibrate => Some(ServoRequest::Calibrate),
                ServoOpcode::GoHome => Some(ServoRequest::GoHome),
                ServoOpcode::SetAxisZero => Some(ServoRequest::SetAxisZero),
                ServoOpcode::RestoreDefaults => Some(ServoRequest::RestoreDefaults),
                ServoOpcode::QueryStatus => Some(ServoRequest::QueryStatus),
                ServoOpcode::SetWorkMode => match WorkMode::spec_from_code(f[0]) {
                    Some(work_mode) => Some(ServoRequest::SetWorkMode { work_mode }),
                    None => None,
                },
                ServoOpcode::SetEnPinActiveMode => match EnPinActiveMode::spec_from_code(f[0]) {
                    Some(active) => Some(ServoRequest::SetEnPinActiveMode { active }),
                    None => None,
                },
                ServoOpcode::SetDir => match Direction::spec_from_code(f[0]) {
                    Some(dir) => Some(ServoRequest::SetDir { dir }),
                    None => None,
                },
                ServoOpcode::SetCanBitRate => match CanBitRate::spec_from_code(f[0]) {
                    Some(bit_rate) => Some(ServoRequest::SetCanBitRate { bit_rate }),
                    None => None,
                },
                ServoOpcode::SaveRunModeParams => match SaveState::spec_from_code(f[0]) {
                    Some(save_state) => Some(ServoRequest::SaveRunModeParams { save_state }),
                    None => None,
                },
                ServoOpcode::SetAutoSSD => Some(ServoRequest::SetAutoSSD { enable: f[0] != 0 }),
                ServoOpcode::SetMotorShaftLockedRotor => Some(ServoRequest::SetMotorShaftLockedRotor { enable: f[0] != 0 }),
                ServoOpcode::SetSubdivisionInterpolation => Some(ServoRequest::SetSubdivisionInterpolation { enable: f[0] != 0 }),
                ServoOpcode::SetCanEnableResponses => Some(ServoRequest::SetCanEnableResponses { enable: f[0] != 0 }),
                ServoOpcode::SetKeyLocked => Some(ServoRequest::SetKeyLocked { enable: f[0] != 0 }),
                ServoOpcode::Enable => Some(ServoRequest::Enable { enabled: f[0] != 0 }),
                ServoOpcode::SetSubdivision => Some(ServoRequest::SetSubdivision { microsteps: f[0] }),
                ServoOpcode::SetCurrent => Some(ServoRequest::SetCurrent { current: u16_of(f[0], f[1]) as u16 }),
                ServoOpcode::SetCanId => Some(ServoRequest::SetCanId { id: u16_of(f[0], f[1]) as u16 }),
                ServoOpcode::SetGroupId => Some(ServoRequest::SetGroupId { id: u16_of(f[0], f[1]) as u16 }),
                ServoOpcode::SetHome => match (HomeTrig::spec_from_code(f[0]), Direction::spec_from_code(f[1])) {
                    (Some(home_trig), Some(home_dir)) => Some(ServoRequest::SetHome {
                        home_trig,
                        home_dir,
                        home_speed: u16_of(f[2], f[3]) as u16,
                        end_limit: f[4] != 0,
                    }),
                    _ => None,
                },
                ServoOpcode::SetZeroOnPowerOnMode => match (
                    ZeroMode::spec_from_code(f[0]),
                    ZeroModeSpeed::spec_from_code(f[2]),
                    Direction::spec_from_code(f[3]),
                ) {
                    (Some(zero_mode), Some(speed), Some(dir)) => Some(ServoRequest::SetZeroOnPoweronMode {
                        zero_mode,
                        enable: f[1] != 0,
                        speed,
                        dir,
                    }),
                    _ => None,
                },
                ServoOpcode::RunSpeedMode => match Direction::spec_from_code(f[0] / 0x80) {
                    Some(dir) => Some(ServoRequest::RunSpeedMode {
                        dir,
                        speed: u16_of(f[0] % 0x80, f[1]) as u16,
                        acc: f[2],
                    }),
                    None => None,
                },
                ServoOpcode::RunPositionRelativePulsesMode => match Direction::spec_from_code(f[0] / 0x80) {
                    Some(dir) => Some(ServoRequest::RunPositionRelativePulsesMode {
                        dir,
                        speed: u16_of(f[0] % 0x80, f[1]) as u16,
                        acc: f[2],
                        pulses: u16_of(f[3], f[4]) as u16,
                    }),
                    None => None,
                },
                ServoOpcode::RunPositionRelativeMotionMode => Some(ServoRequest::RunPositionRelativeMotionMode {
                    speed: u16_of(f[0], f[1]) as u16,
                    acc: f[2],
                    rel_axis: i24_of(f[3], f[4], f[5]),
                }),
                ServoOpcode::RunPositionAbsoluteMotionMode => Some(ServoRequest::RunPositionAbsoluteMotionMode {
                    speed: u16_of(f[0], f[1]) as u16,
                    accel: f[2],
                    abs_axis: i24_of(f[3], f[4], f[5]),
                }),
        }
    }
}

/// The command that a body (opcode and fields, without the check byte) stands for, if any.
pub open spec fn parse_request(body: Seq<u8>) -> Option<ServoRequest> {
    if body.len() == 0 {
        None
    } else {
        match ServoOpcode::spec_from_code(body[0]) {
            Some(op) => parse_request_fields(op, body.drop_first()),
            None => None,
        }
    }
}

proof fn lemma_u16_bytes(v: u16)
    ensures
        u16_of(be_bytes_u16(v)[0], be_bytes_u16(v)[1]) == v,
{
}

proof fn lemma_i16_bytes(v: i16)
    ensures
        i16_of(be_bytes_i16(v)[0], be_bytes_i16(v)[1]) == v,
{
}

proof fn lemma_i32_bytes(v: i32)
    ensures
        ({
            let b = be_bytes_i32(v);
            i32_of(b[0], b[1], b[2], b[3]) == v
        }),
{
}

proof fn lemma_i24_bytes(v: i32)
    requires
        in_i24(v),
    ensures
        ({
            let b = be_bytes_i24(v);
            i24_of(b[0], b[1], b[2]) == v
        }),
{
}

proof fn lemma_u32_bytes(v: u32)
    ensures
        ({
            let b = be_bytes_u32(v);
            u32_of(b[0], b[1], b[2], b[3]) == v
        }),
{
}

proof fn lemma_i48_bytes(v: i64)
    requires
        -0x8000_0000_0000 + 0x100_0000_0000 <= v < 0x8000_0000_0000,
    ensures
        ({
            let b = be_bytes_i48(v);
            encoder_value(b[0], b[1], b[2], b[3], b[4], b[5]) == v
        }),
{
    let u = v as int % 0x1_0000_0000_0000;
    let hi = (u / 0x1_0000_0000) as u16;
    let lo = (u % 0x1_0000_0000) as u32;
    lemma_u16_bytes(hi);
    lemma_u32_bytes(lo);
    let b = be_bytes_i48(v);
    assert(b[0] == be_bytes_u16(hi)[0] && b[1] == be_bytes_u16(hi)[1]);
    assert(b[2] == be_bytes_u32(lo)[0] && b[3] == be_bytes_u32(lo)[1]);
    assert(b[4] == be_bytes_u32(lo)[2] && b[5] == be_bytes_u32(lo)[3]);
    assert(u == hi * 0x1_0000_0000 + lo);
}

proof fn lemma_opcode_code(op: ServoOpcode)
    ensures
        ServoOpcode::spec_from_code(op.spec_code()) == Some(op),
{
}

proof fn lemma_dir_speed_bytes(dir: Direction, speed: u16)
    requires
        speed < 0x8000,
    ensures
        Direction::spec_from_code(dir_speed_byte(dir, speed) / 0x80) == Some(dir),
        u16_of(dir_speed_byte(dir, speed) % 0x80, (speed % 0x100) as u8) == speed,
{
}

/// Every reply, laid out as a controller sends it and closed with its check
/// byte, decodes back to the same reply (for the replies that
/// `spec_round_trips` admits).
pub proof fn lemma_response_round_trip(id: FrameId, response: ServoResponse)
    requires
        response.spec_round_trips(),
    ensures
        spec_decode(id, response.spec_frame_data(id)) == Ok::<ServoResponse, DecodeError>(response),
{
    let body = seq![response.spec_opcode().spec_code()] + response.spec_payload();
    let data = response.spec_frame_data(id);
    assert(data.drop_last() =~= body);
    assert(body.drop_first() =~= response.spec_payload());
    lemma_opcode_code(response.spec_opcode());
    match response {
        ServoResponse::ReadEncoderValueCarry { carry, value } => {
            lemma_i32_bytes(carry);
            lemma_u16_bytes(value);
        },
        ServoResponse::ReadEncoderValueAddition { value } => lemma_i48_bytes(value),
        ServoResponse::ReadSpeed { speed } => lemma_i16_bytes(speed),
        ServoResponse::ReadPulses { pulses } => lemma_i32_bytes(pulses),
        ServoResponse::ReadError { error } => lemma_i32_bytes(error),
        _ => {},
    }
}

proof fn lemma_request_fields(request: ServoRequest)
    requires
        request.spec_valid(),
        request.spec_packs_apart(),
    ensures
        parse_request_fields(request.spec_opcode(), request.spec_fields()) == Some(request),
{
    match request {
        ServoRequest::SetWorkMode { work_mode } => {
            assert(WorkMode::spec_from_code(work_mode.spec_code()) == Some(work_mode));
        },
        ServoRequest::SetEnPinActiveMode { active } => {
            assert(EnPinActiveMode::spec_from_code(active.spec_code()) == Some(active));
        },
        ServoRequest::SetDir { dir } => {
            assert(Direction::spec_from_code(dir.spec_code()) == Some(dir));
        },
        ServoRequest::SetCanBitRate { bit_rate } => {
            assert(CanBitRate::spec_from_code(bit_rate.spec_code()) == Some(bit_rate));
        },
        ServoRequest::SaveRunModeParams { save_state } => {
            assert(SaveState::spec_from_code(save_state.spec_code()) == Some(save_state));
        },
        ServoRequest::SetCurrent { current } => lemma_u16_bytes(current),
        ServoRequest::SetCanId { id } => lemma_u16_bytes(id),
        ServoRequest::SetGroupId { id } => lemma_u16_bytes(id),
        ServoRequest::SetHome { home_trig, home_dir, home_speed, .. } => {
            assert(HomeTrig::spec_from_code(home_trig.spec_code()) == Some(home_trig));
            assert(Direction::spec_from_code(home_dir.spec_code()) == Some(home_dir));
            lemma_u16_bytes(home_speed);
        },
        ServoRequest::SetZeroOnPoweronMode { zero_mode, speed, dir, .. } => {
            assert(ZeroMode::spec_from_code(zero_mode.spec_code()) == Some(zero_mode));
            assert(ZeroModeSpeed::spec_from_code(speed.spec_code()) == Some(speed));
            assert(Direction::spec_from_code(dir.spec_code()) == Some(dir));
        },
        ServoRequest::RunSpeedMode { dir, speed, .. } => lemma_dir_speed_bytes(dir, speed),
        ServoRequest::RunPositionRelativePulsesMode { dir, speed, pulses, .. } => {
            lemma_dir_speed_bytes(dir, speed);
            lemma_u16_bytes(pulses);
        },
        ServoRequest::RunPositionRelativeMotionMode { speed, rel_axis, .. } => {
            lemma_u16_bytes(speed);
            lemma_i24_bytes(rel_axis);
        },
        ServoRequest::RunPositionAbsoluteMotionMode { speed, abs_axis, .. } => {
            lemma_u16_bytes(speed);
            lemma_i24_bytes(abs_axis);
        },
        _ => {},
    }
}

/// Every valid command encoded for `id` ends with the check byte of the rest,
/// and the rest gives back the command, field for field.
pub proof fn lemma_request_round_trip(id: FrameId, request: ServoRequest)
    requires
        request.spec_valid(),
        request.spec_packs_apart(),
    ensures
        ({
            let data = request.spec_frame_data(id);
            &&& data.last() == frame_checksum(id, data.drop_last())
            &&& parse_request(data.drop_last()) == Some(request)
        }),
{
    let data = request.spec_frame_data(id);
    assert(data.drop_last() =~= request.spec_body());
    assert(request.spec_body().drop_first() =~= request.spec_fields());
    lemma_opcode_code(request.spec_opcode());
    lemma_request_fields(request);
}

} // verus!
