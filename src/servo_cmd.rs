//! Commands, replies and the small enumerations carried in their payloads.

use vstd::prelude::*;

verus! {

/// Operating mode of the motor driver.
#[derive(Copy, Clone, Debug, PartialEq, Eq, Structural, PartialOrd, Ord)]
pub enum WorkMode {
    CrOpen,
    CrClose,
    CrVFoc,
    SrOpen,
    SrClose,
    SrVFoc,
}

impl WorkMode {
    pub open spec fn spec_code(self) -> u8 {
        match self {
            WorkMode::CrOpen => 0,
            WorkMode::CrClose => 1,
            WorkMode::CrVFoc => 2,
            WorkMode::SrOpen => 3,
            WorkMode::SrClose => 4,
            WorkMode::SrVFoc => 5,
        }
    }

    pub open spec fn spec_from_code(v: u8) -> Option<Self> {
        if v == 0 {
            Some(WorkMode::CrOpen)
        } else if v == 1 {
            Some(WorkMode::CrClose)
        } else if v == 2 {
            Some(WorkMode::CrVFoc)
        } else if v == 3 {
            Some(WorkMode::SrOpen)
        } else if v == 4 {
            Some(WorkMode::SrClose)
        } else if v == 5 {
            Some(WorkMode::SrVFoc)
        } else {
            None
        }
    }

    /// The byte that stands for this value on the wire.
    pub fn code(self) -> (r: u8)
        ensures
            r == self.spec_code(),
    {
        match self {
            WorkMode::CrOpen => 0,
            WorkMode::CrClose => 1,
            WorkMode::CrVFoc => 2,
            WorkMode::SrOpen => 3,
            WorkMode::SrClose => 4,
            WorkMode::SrVFoc => 5,
        }
    }

}

/// Level at which the enable pin counts as active.
#[derive(Copy, Clone, Debug, PartialEq, Eq, Structural, PartialOrd, Ord)]
pub enum EnPinActiveMode {
    Low,
    High,
    Always,
}

impl EnPinActiveMode {
    pub open spec fn spec_code(self) -> u8 {
        match self {
            EnPinActiveMode::Low => 0,
            EnPinActiveMode::High => 1,
            EnPinActiveMode::Always => 2,
        }
    }

    pub open spec fn spec_from_code(v: u8) -> Option<Self> {
        if v == 0 {
            Some(EnPinActiveMode::Low)
        } else if v == 1 {
            Some(EnPinActiveMode::High)
        } else if v == 2 {
            Some(EnPinActiveMode::Always)
        } else {
            None
        }
    }

    /// The byte that stands for this value on the wire.
    pub fn code(self) -> (r: u8)
        ensures
            r == self.spec_code(),
    {
        match self {
            EnPinActiveMode::Low => 0,
            EnPinActiveMode::High => 1,
            EnPinActiveMode::Always => 2,
        }
    }

}

/// Bit rate of the CAN bus.
#[derive(Copy, Clone, Debug, PartialEq, Eq, Structural, PartialOrd, Ord)]
pub enum CanBitRate {
    B125K,
    B250K,
    B500K,
    B1M,
}

impl CanBitRate {
    pub open spec fn spec_code(self) -> u8 {
        match self {
            CanBitRate::B125K => 0,
            CanBitRate::B250K => 1,
            CanBitRate::B500K => 2,
            CanBitRate::B1M => 3,
        }
    }

    pub open spec fn spec_from_code(v: u8) -> Option<Self> {
        if v == 0 {
            Some(CanBitRate::B125K)
        } else if v == 1 {
            Some(CanBitRate::B250K)
        } else if v == 2 {
            Some(CanBitRate::B500K)
        } else if v == 3 {
            Some(CanBitRate::B1M)
        } else {
            None
        }
    }

    /// The byte that stands for this value on the wire.
    pub fn code(self) -> (r: u8)
        ensures
            r == self.spec_code(),
    {
        match self {
            CanBitRate::B125K => 0,
            CanBitRate::B250K => 1,
            CanBitRate::B500K => 2,
            CanBitRate::B1M => 3,
        }
    }

}

/// How the motor returns to zero at power-on.
#[derive(Copy, Clone, Debug, PartialEq, Eq, Structural, PartialOrd, Ord)]
pub enum ZeroMode {
    Disable,
    DirMode,
    NearMode,
}

impl ZeroMode {
    pub open spec fn spec_code(self) -> u8 {
        match self {
            ZeroMode::Disable => 0,
            ZeroMode::DirMode => 1,
            ZeroMode::NearMode => 2,
        }
    }

    pub open spec fn spec_from_code(v: u8) -> Option<Self> {
        if v == 0 {
            Some(ZeroMode::Disable)
        } else if v == 1 {
            Some(ZeroMode::DirMode)
        } else if v == 2 {
            Some(ZeroMode::NearMode)
        } else {
            None
        }
    }

    /// The byte that stands for this value on the wire.
    pub fn code(self) -> (r: u8)
        ensures
            r == self.spec_code(),
    {
        match self {
            ZeroMode::Disable => 0,
            ZeroMode::DirMode => 1,
            ZeroMode::NearMode => 2,
        }
    }

}

/// Speed step used when returning to zero at power-on.
#[derive(Copy, Clone, Debug, PartialEq, Eq, Structural, PartialOrd, Ord)]
pub enum ZeroModeSpeed {
    Speed0,
    Speed1,
    Speed2,
    Speed3,
}

impl ZeroModeSpeed {
    pub open spec fn spec_code(self) -> u8 {
        match self {
            ZeroModeSpeed::Speed0 => 0,
            ZeroModeSpeed::Speed1 => 1,
            ZeroModeSpeed::Speed2 => 2,
            ZeroModeSpeed::Speed3 => 3,
        }
    }

    pub open spec fn spec_from_code(v: u8) -> Option<Self> {
        if v == 0 {
            Some(ZeroModeSpeed::Speed0)
        } else if v == 1 {
            Some(ZeroModeSpeed::Speed1)
        } else if v == 2 {
            Some(ZeroModeSpeed::Speed2)
        } else if v == 3 {
            Some(ZeroModeSpeed::Speed3)
        } else {
            None
        }
    }

    /// The byte that stands for this value on the wire.
    pub fn code(self) -> (r: u8)
        ensures
            r == self.spec_code(),
    {
        match self {
            ZeroModeSpeed::Speed0 => 0,
            ZeroModeSpeed::Speed1 => 1,
            ZeroModeSpeed::Speed2 => 2,
            ZeroModeSpeed::Speed3 => 3,
        }
    }

}

/// Level of the homing end stop.
#[derive(Copy, Clone, Debug, PartialEq, Eq, Structural, PartialOrd, Ord)]
pub enum HomeTrig {
    Low,
    High,
}

impl HomeTrig {
    pub open spec fn spec_code(self) -> u8 {
        match self {
            HomeTrig::Low => 0,
            HomeTrig::High => 1,
        }
    }

    pub open spec fn spec_from_code(v: u8) -> Option<Self> {
        if v == 0 {
            Some(HomeTrig::Low)
        } else if v == 1 {
            Some(HomeTrig::High)
        } else {
            None
        }
    }

    /// The byte that stands for this value on the wire.
    pub fn code(self) -> (r: u8)
        ensures
            r == self.spec_code(),
    {
        match self {
            HomeTrig::Low => 0,
            HomeTrig::High => 1,
        }
    }

}

/// Direction of rotation.
#[derive(Copy, Clone, Debug, PartialEq, Eq, Structural, PartialOrd, Ord)]
pub enum Direction {
    CW,
    CCW,
}

impl Direction {
    pub open spec fn spec_code(self) -> u8 {
        match self {
            Direction::CW => 0,
            Direction::CCW => 1,
        }
    }

    pub open spec fn spec_from_code(v: u8) -> Option<Self> {
        if v == 0 {
            Some(Direction::CW)
        } else if v == 1 {
            Some(Direction::CCW)
        } else {
            None
        }
    }

    /// The byte that stands for this value on the wire.
    pub fn code(self) -> (r: u8)
        ensures
            r == self.spec_code(),
    {
        match self {
            Direction::CW => 0,
            Direction::CCW => 1,
        }
    }

}

/// Whether speed-mode parameters are saved or cleared.
#[derive(Copy, Clone, Debug, PartialEq, Eq, Structural, PartialOrd, Ord)]
pub enum SaveState {
    Save,
    Clean,
}

impl SaveState {
    pub open spec fn spec_code(self) -> u8 {
        match self {
            SaveState::Save => 0xc8,
            SaveState::Clean => 0xca,
        }
    }

    pub open spec fn spec_from_code(v: u8) -> Option<Self> {
        if v == 0xc8 {
            Some(SaveState::Save)
        } else if v == 0xca {
            Some(SaveState::Clean)
        } else {
            None
        }
    }

    /// The byte that stands for this value on the wire.
    pub fn code(self) -> (r: u8)
        ensures
            r == self.spec_code(),
    {
        match self {
            SaveState::Save => 0xc8,
            SaveState::Clean => 0xca,
        }
    }

}

/// Progress of a long-running device operation.
#[derive(Copy, Clone, Debug, PartialEq, Eq, Structural, PartialOrd, Ord)]
pub enum ProgressStatus {
    Busy,
    Success,
    Fail,
}

impl ProgressStatus {
    pub open spec fn spec_code(self) -> u8 {
        match self {
            ProgressStatus::Busy => 0,
            ProgressStatus::Success => 1,
            ProgressStatus::Fail => 2,
        }
    }

    pub open spec fn spec_from_code(v: u8) -> Option<Self> {
        if v == 0 {
            Some(ProgressStatus::Busy)
        } else if v == 1 {
            Some(ProgressStatus::Success)
        } else if v == 2 {
            Some(ProgressStatus::Fail)
        } else {
            None
        }
    }

    /// The value that a wire byte stands for, if any.
    pub fn from_code(v: u8) -> (r: Option<Self>)
        ensures
            r == Self::spec_from_code(v),
    {
        if v == 0 {
            Some(ProgressStatus::Busy)
        } else if v == 1 {
            Some(ProgressStatus::Success)
        } else if v == 2 {
            Some(ProgressStatus::Fail)
        } else {
            None
        }
    }

}

/// State of a motion command.
#[derive(Copy, Clone, Debug, PartialEq, Eq, Structural, PartialOrd, Ord)]
pub enum MotionStatus {
    Fail,
    Busy,
    Success,
    LimitReached,
}

impl MotionStatus {
    pub open spec fn spec_code(self) -> u8 {
        match self {
            MotionStatus::Fail => 0,
            MotionStatus::Busy => 1,
            MotionStatus::Success => 2,
            MotionStatus::LimitReached => 3,
        }
    }

    pub open spec fn spec_from_code(v: u8) -> Option<Self> {
        if v == 0 {
            Some(MotionStatus::Fail)
        } else if v == 1 {
            Some(MotionStatus::Busy)
        } else if v == 2 {
            Some(MotionStatus::Success)
        } else if v == 3 {
            Some(MotionStatus::LimitReached)
        } else {
            None
        }
    }

    /// The value that a wire byte stands for, if any.
    pub fn from_code(v: u8) -> (r: Option<Self>)
        ensures
            r == Self::spec_from_code(v),
    {
        if v == 0 {
            Some(MotionStatus::Fail)
        } else if v == 1 {
            Some(MotionStatus::Busy)
        } else if v == 2 {
            Some(MotionStatus::Success)
        } else if v == 3 {
            Some(MotionStatus::LimitReached)
        } else {
            None
        }
    }

}

/// State of the stepper reported by a status query.
#[derive(Copy, Clone, Debug, PartialEq, Eq, Structural, PartialOrd, Ord)]
pub enum MotorStatus {
    MotorStopped,
    MotorSpeedingUp,
    MotorSpeedingDown,
    MotorFullSpeed,
    MotorHoming,
}

impl MotorStatus {
    pub open spec fn spec_code(self) -> u8 {
        match self {
            MotorStatus::MotorStopped => 0,
            MotorStatus::MotorSpeedingUp => 1,
            MotorStatus::MotorSpeedingDown => 2,
            MotorStatus::MotorFullSpeed => 3,
            MotorStatus::MotorHoming => 4,
        }
    }

    pub open spec fn spec_from_code(v: u8) -> Option<Self> {
        if v == 0 {
            Some(MotorStatus::MotorStopped)
        } else if v == 1 {
            Some(MotorStatus::MotorSpeedingUp)
        } else if v == 2 {
            Some(MotorStatus::MotorSpeedingDown)
        } else if v == 3 {
            Some(MotorStatus::MotorFullSpeed)
        } else if v == 4 {
            Some(MotorStatus::MotorHoming)
        } else {
            None
        }
    }

    /// The value that a wire byte stands for, if any.
    pub fn from_code(v: u8) -> (r: Option<Self>)
        ensures
            r == Self::spec_from_code(v),
    {
        if v == 0 {
            Some(MotorStatus::MotorStopped)
        } else if v == 1 {
            Some(MotorStatus::MotorSpeedingUp)
        } else if v == 2 {
            Some(MotorStatus::MotorSpeedingDown)
        } else if v == 3 {
            Some(MotorStatus::MotorFullSpeed)
        } else if v == 4 {
            Some(MotorStatus::MotorHoming)
        } else {
            None
        }
    }

}

/// Leading byte of a frame: selects the command and the layout of its reply.
#[derive(Copy, Clone, Debug, PartialEq, Eq, Structural, PartialOrd, Ord)]
pub enum ServoOpcode {
    ReadEncoderValueCarry,
    ReadEncoderValueAddition,
    ReadSpeed,
    ReadPulses,
    ReadIOPorts,
    ReadError,
    ReadEnPin,
    ReadGoBackToZeroOnPowerOnStatus,
    ReleaseMotorShaft,
    ReadMotorShaftLockedRotor,
    Calibrate,
    SetWorkMode,
    SetCurrent,
    SetSubdivision,
    SetEnPinActiveMode,
    SetDir,
    SetAutoSSD,
    SetMotorShaftLockedRotor,
    SetSubdivisionInterpolation,
    SetCanBitRate,
    SetCanId,
    SetCanEnableResponses,
    SetKeyLocked,
    SetGroupId,
    SetHome,
    GoHome,
    SetAxisZero,
    SetZeroOnPowerOnMode,
    RestoreDefaults,
    QueryStatus,
    Enable,
    RunSpeedMode,
    SaveRunModeParams,
    RunPositionRelativePulsesMode,
    RunPositionRelativeMotionMode,
    RunPositionAbsoluteMotionMode,
}

impl ServoOpcode {
    pub open spec fn spec_code(self) -> u8 {
        match self {
            ServoOpcode::ReadEncoderValueCarry => 0x30,
            ServoOpcode::ReadEncoderValueAddition => 0x31,
            ServoOpcode::ReadSpeed => 0x32,
            ServoOpcode::ReadPulses => 0x33,
            ServoOpcode::ReadIOPorts => 0x34,
            ServoOpcode::ReadError => 0x39,
            ServoOpcode::ReadEnPin => 0x3a,
            ServoOpcode::ReadGoBackToZeroOnPowerOnStatus => 0x3b,
            ServoOpcode::ReleaseMotorShaft => 0x3d,
            ServoOpcode::ReadMotorShaftLockedRotor => 0x3e,
            ServoOpcode::Calibrate => 0x80,
            ServoOpcode::SetWorkMode => 0x82,
            ServoOpcode::SetCurrent => 0x83,
            ServoOpcode::SetSubdivision => 0x84,
            ServoOpcode::SetEnPinActiveMode => 0x85,
            ServoOpcode::SetDir => 0x86,
            ServoOpcode::SetAutoSSD => 0x87,
            ServoOpcode::SetMotorShaftLockedRotor => 0x88,
            ServoOpcode::SetSubdivisionInterpolation => 0x89,
            ServoOpcode::SetCanBitRate => 0x8a,
            ServoOpcode::SetCanId => 0x8b,
            ServoOpcode::SetCanEnableResponses => 0x8c,
            ServoOpcode::SetKeyLocked => 0x8f,
            ServoOpcode::SetGroupId => 0x8d,
            ServoOpcode::SetHome => 0x90,
            ServoOpcode::GoHome => 0x91,
            ServoOpcode::SetAxisZero => 0x92,
            ServoOpcode::SetZeroOnPowerOnMode => 0x9a,
            ServoOpcode::RestoreDefaults => 0x3f,
            ServoOpcode::QueryStatus => 0xf1,
            ServoOpcode::Enable => 0xf3,
            ServoOpcode::RunSpeedMode => 0xf6,
            ServoOpcode::SaveRunModeParams => 0xff,
            ServoOpcode::RunPositionRelativePulsesMode => 0xfd,
            ServoOpcode::RunPositionRelativeMotionMode => 0xf4,
            ServoOpcode::RunPositionAbsoluteMotionMode => 0xf5,
        }
    }

    pub open spec fn spec_from_code(v: u8) -> Option<Self> {
        if v == 0x30 {
            Some(ServoOpcode::ReadEncoderValueCarry)
        } else if v == 0x31 {
            Some(ServoOpcode::ReadEncoderValueAddition)
        } else if v == 0x32 {
            Some(ServoOpcode::ReadSpeed)
        } else if v == 0x33 {
            Some(ServoOpcode::ReadPulses)
        } else if v == 0x34 {
            Some(ServoOpcode::ReadIOPorts)
        } else if v == 0x39 {
            Some(ServoOpcode::ReadError)
        } else if v == 0x3a {
            Some(ServoOpcode::ReadEnPin)
        } else if v == 0x3b {
            Some(ServoOpcode::ReadGoBackToZeroOnPowerOnStatus)
        } else if v == 0x3d {
            Some(ServoOpcode::ReleaseMotorShaft)
        } else if v == 0x3e {
            Some(ServoOpcode::ReadMotorShaftLockedRotor)
        } else if v == 0x80 {
            Some(ServoOpcode::Calibrate)
        } else if v == 0x82 {
            Some(ServoOpcode::SetWorkMode)
        } else if v == 0x83 {
            Some(ServoOpcode::SetCurrent)
        } else if v == 0x84 {
            Some(ServoOpcode::SetSubdivision)
        } else if v == 0x85 {
            Some(ServoOpcode::SetEnPinActiveMode)
        } else if v == 0x86 {
            Some(ServoOpcode::SetDir)
        } else if v == 0x87 {
            Some(ServoOpcode::SetAutoSSD)
        } else if v == 0x88 {
            Some(ServoOpcode::SetMotorShaftLockedRotor)
        } else if v == 0x89 {
            Some(ServoOpcode::SetSubdivisionInterpolation)
        } else if v == 0x8a {
            Some(ServoOpcode::SetCanBitRate)
        } else if v == 0x8b {
            Some(ServoOpcode::SetCanId)
        } else if v == 0x8c {
            Some(ServoOpcode::SetCanEnableResponses)
        } else if v == 0x8f {
            Some(ServoOpcode::SetKeyLocked)
        } else if v == 0x8d {
            Some(ServoOpcode::SetGroupId)
        } else if v == 0x90 {
            Some(ServoOpcode::SetHome)
        } else if v == 0x91 {
            Some(ServoOpcode::GoHome)
        } else if v == 0x92 {
            Some(ServoOpcode::SetAxisZero)
        } else if v == 0x9a {
            Some(ServoOpcode::SetZeroOnPowerOnMode)
        } else if v == 0x3f {
            Some(ServoOpcode::RestoreDefaults)
        } else if v == 0xf1 {
            Some(ServoOpcode::QueryStatus)
        } else if v == 0xf3 {
            Some(ServoOpcode::Enable)
        } else if v == 0xf6 {
            Some(ServoOpcode::RunSpeedMode)
        } else if v == 0xff {
            Some(ServoOpcode::SaveRunModeParams)
        } else if v == 0xfd {
            Some(ServoOpcode::RunPositionRelativePulsesMode)
        } else if v == 0xf4 {
            Some(ServoOpcode::RunPositionRelativeMotionMode)
        } else if v == 0xf5 {
            Some(ServoOpcode::RunPositionAbsoluteMotionMode)
        } else {
            None
        }
    }

    /// The byte that stands for this value on the wire.
    pub fn code(self) -> (r: u8)
        ensures
            r == self.spec_code(),
    {
        match self {
            ServoOpcode::ReadEncoderValueCarry => 0x30,
            ServoOpcode::ReadEncoderValueAddition => 0x31,
            ServoOpcode::ReadSpeed => 0x32,
            ServoOpcode::ReadPulses => 0x33,
            ServoOpcode::ReadIOPorts => 0x34,
            ServoOpcode::ReadError => 0x39,
            ServoOpcode::ReadEnPin => 0x3a,
            ServoOpcode::ReadGoBackToZeroOnPowerOnStatus => 0x3b,
            ServoOpcode::ReleaseMotorShaft => 0x3d,
            ServoOpcode::ReadMotorShaftLockedRotor => 0x3e,
            ServoOpcode::Calibrate => 0x80,
            ServoOpcode::SetWorkMode => 0x82,
            ServoOpcode::SetCurrent => 0x83,
            ServoOpcode::SetSubdivision => 0x84,
            ServoOpcode::SetEnPinActiveMode => 0x85,
            ServoOpcode::SetDir => 0x86,
            ServoOpcode::SetAutoSSD => 0x87,
            ServoOpcode::SetMotorShaftLockedRotor => 0x88,
            ServoOpcode::SetSubdivisionInterpolation => 0x89,
            ServoOpcode::SetCanBitRate => 0x8a,
            ServoOpcode::SetCanId => 0x8b,
            ServoOpcode::SetCanEnableResponses => 0x8c,
            ServoOpcode::SetKeyLocked => 0x8f,
            ServoOpcode::SetGroupId => 0x8d,
            ServoOpcode::SetHome => 0x90,
            ServoOpcode::GoHome => 0x91,
            ServoOpcode::SetAxisZero => 0x92,
            ServoOpcode::SetZeroOnPowerOnMode => 0x9a,
            ServoOpcode::RestoreDefaults => 0x3f,
            ServoOpcode::QueryStatus => 0xf1,
            ServoOpcode::Enable => 0xf3,
            ServoOpcode::RunSpeedMode => 0xf6,
            ServoOpcode::SaveRunModeParams => 0xff,
            ServoOpcode::RunPositionRelativePulsesMode => 0xfd,
            ServoOpcode::RunPositionRelativeMotionMode => 0xf4,
            ServoOpcode::RunPositionAbsoluteMotionMode => 0xf5,
        }
    }

    /// The value that a wire byte stands for, if any.
    pub fn from_code(v: u8) -> (r: Option<Self>)
        ensures
            r == Self::spec_from_code(v),
    {
        if v == 0x30 {
            Some(ServoOpcode::ReadEncoderValueCarry)
        } else if v == 0x31 {
            Some(ServoOpcode::ReadEncoderValueAddition)
        } else if v == 0x32 {
            Some(ServoOpcode::ReadSpeed)
        } else if v == 0x33 {
            Some(ServoOpcode::ReadPulses)
        } else if v == 0x34 {
            Some(ServoOpcode::ReadIOPorts)
        } else if v == 0x39 {
            Some(ServoOpcode::ReadError)
        } else if v == 0x3a {
            Some(ServoOpcode::ReadEnPin)
        } else if v == 0x3b {
            Some(ServoOpcode::ReadGoBackToZeroOnPowerOnStatus)
        } else if v == 0x3d {
            Some(ServoOpcode::ReleaseMotorShaft)
        } else if v == 0x3e {
            Some(ServoOpcode::ReadMotorShaftLockedRotor)
        } else if v == 0x80 {
            Some(ServoOpcode::Calibrate)
        } else if v == 0x82 {
            Some(ServoOpcode::SetWorkMode)
        } else if v == 0x83 {
            Some(ServoOpcode::SetCurrent)
        } else if v == 0x84 {
            Some(ServoOpcode::SetSubdivision)
        } else if v == 0x85 {
            Some(ServoOpcode::SetEnPinActiveMode)
        } else if v == 0x86 {
            Some(ServoOpcode::SetDir)
        } else if v == 0x87 {
            Some(ServoOpcode::SetAutoSSD)
        } else if v == 0x88 {
            Some(ServoOpcode::SetMotorShaftLockedRotor)
        } else if v == 0x89 {
            Some(ServoOpcode::SetSubdivisionInterpolation)
        } else if v == 0x8a {
            Some(ServoOpcode::SetCanBitRate)
        } else if v == 0x8b {
            Some(ServoOpcode::SetCanId)
        } else if v == 0x8c {
            Some(ServoOpcode::SetCanEnableResponses)
        } else if v == 0x8f {
            Some(ServoOpcode::SetKeyLocked)
        } else if v == 0x8d {
            Some(ServoOpcode::SetGroupId)
        } else if v == 0x90 {
            Some(ServoOpcode::SetHome)
        } else if v == 0x91 {
            Some(ServoOpcode::GoHome)
        } else if v == 0x92 {
            Some(ServoOpcode::SetAxisZero)
        } else if v == 0x9a {
            Some(ServoOpcode::SetZeroOnPowerOnMode)
        } else if v == 0x3f {
            Some(ServoOpcode::RestoreDefaults)
        } else if v == 0xf1 {
            Some(ServoOpcode::QueryStatus)
        } else if v == 0xf3 {
            Some(ServoOpcode::Enable)
        } else if v == 0xf6 {
            Some(ServoOpcode::RunSpeedMode)
        } else if v == 0xff {
            Some(ServoOpcode::SaveRunModeParams)
        } else if v == 0xfd {
            Some(ServoOpcode::RunPositionRelativePulsesMode)
        } else if v == 0xf4 {
            Some(ServoOpcode::RunPositionRelativeMotionMode)
        } else if v == 0xf5 {
            Some(ServoOpcode::RunPositionAbsoluteMotionMode)
        } else {
            None
        }
    }

}

/// A command sent to one servo controller.
#[allow(inconsistent_fields)]
#[derive(Copy, Clone, Debug, PartialEq, Eq, Structural, PartialOrd, Ord)]
pub enum ServoRequest {
    ReadEncoderValueCarry,
    ReadEncoderValueAddition,
    ReadSpeed,
    ReadPulses,
    ReadIOPorts,
    ReadError,
    ReadEnPin,
    ReadGoBackToZeroOnPowerOnStatus,
    ReleaseMotorShaft,
    ReadMotorShaftLockedRotor,
    Calibrate,
    SetWorkMode { work_mode: WorkMode },
    /// Current in mA.
    SetCurrent { current: u16 },
    SetSubdivision { microsteps: u8 },
    SetEnPinActiveMode { active: EnPinActiveMode },
    SetDir { dir: Direction },
    SetAutoSSD { enable: bool },
    SetMotorShaftLockedRotor { enable: bool },
    SetSubdivisionInterpolation { enable: bool },
    SetCanBitRate { bit_rate: CanBitRate },
    /// Bus identifier, at most `0x7ff`.
    SetCanId { id: u16 },
    SetCanEnableResponses { enable: bool },
    SetKeyLocked { enable: bool },
    /// Group identifier, at most `0x7ff`.
    SetGroupId { id: u16 },
    /// Homing setup; `home_speed` is at most 3000.
    SetHome { home_trig: HomeTrig, home_dir: Direction, home_speed: u16, end_limit: bool },
    GoHome,
    SetAxisZero,
    SetZeroOnPoweronMode { zero_mode: ZeroMode, enable: bool, speed: ZeroModeSpeed, dir: Direction },
    RestoreDefaults,
    QueryStatus,
    Enable { enabled: bool },
    RunSpeedMode { dir: Direction, speed: u16, acc: u8 },
    SaveRunModeParams { save_state: SaveState },
    RunPositionRelativePulsesMode { dir: Direction, speed: u16, acc: u8, pulses: u16 },
    /// `rel_axis` is a signed 24-bit value.
    RunPositionRelativeMotionMode { speed: u16, acc: u8, rel_axis: i32 },
    /// `abs_axis` is a signed 24-bit value.
    RunPositionAbsoluteMotionMode { speed: u16, accel: u8, abs_axis: i32 },
}

/// A reply from one servo controller.
#[allow(inconsistent_fields)]
#[derive(Copy, Clone, Debug, PartialEq, Eq, Structural, PartialOrd, Ord)]
pub enum ServoResponse {
    /// Completed turns (CCW positive) and the position within the turn, in `0..0x4000`.
    ReadEncoderValueCarry { carry: i32, value: u16 },
    /// Position from zero, where `0x4000` is a full turn.
    ReadEncoderValueAddition { value: i64 },
    /// Speed in RPM.
    ReadSpeed { speed: i16 },
    /// Running count of pulses received.
    ReadPulses { pulses: i32 },
    ReadIOPorts { out_1: bool, out_2: bool, in_1: bool, in_2: bool },
    /// Difference from the set position, `0..51200` being about one turn.
    ReadError { error: i32 },
    ReadEnPin { enabled: bool },
    ReadGoBackToZeroOnPowerOnStatus { status: ProgressStatus },
    ReleaseMotorShaft { success: bool },
    ReadMotorShaftLockedRotor { locked: bool },
    Calibrate { status: ProgressStatus },
    SetWorkMode { success: bool },
    SetCurrent { success: bool },
    SetSubdivision { success: bool },
    SetEnPinActiveMode { success: bool },
    SetDir { success: bool },
    SetAutoSSD { success: bool },
    SetMotorShaftLockedRotor { success: bool },
    SetSubdivisionInterpolation { success: bool },
    SetCanBitRate { success: bool },
    SetCanId { success: bool },
    SetCanEnableResponses { success: bool },
    SetKeyLocked { success: bool },
    SetGroupId { success: bool },
    SetHome { success: bool },
    GoHome { progress: ProgressStatus },
    SetAxisZero { success: bool },
    SetZeroOnPowerOnMode { success: bool },
    RestoreDefaults { success: bool },
    QueryStatus { status: Option<MotorStatus> },
    Enable { success: bool },
    RunSpeedMode { status: MotionStatus },
    SaveRunModeParams { success: bool },
    RunPositionRelativePulsesMode { status: MotionStatus },
    RunPositionRelativeMotionMode { status: MotionStatus },
    RunPositionAbsoluteMotionMode { status: MotionStatus },
}

} // verus!
