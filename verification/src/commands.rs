//! The closed set of bus commands an ODrive understands, split into the
//! commands that elicit a reply frame (`ReadComm`) and the fire-and-forget
//! commands (`WriteComm`), together with their fixed numeric wire ids.
//!
//! The numeric ids are externally documented constants of the ODrive CAN
//! protocol; changing one is a wire-compatibility break.

use vstd::prelude::*;

verus! {

/// Commands that request data back from the device: the device answers each
/// of these with a reply frame on the bus.
#[derive(Clone, Copy, PartialEq, Eq, Structural, Debug, Hash)]
pub enum ReadComm {
    Heartbeat,
    MotorError,
    EncoderError,
    SensorlessError,
    GetEncoderEstimates,
    GetEncoderCount,
    GetIQSetpoint,
    GetSensorlessEstimates,
    GetVBusVoltage,
}

/// Commands the device accepts without ever replying on the bus.
#[derive(Clone, Copy, PartialEq, Eq, Structural, Debug, Hash)]
pub enum WriteComm {
    EStop,
    SetAxisNodeID,
    SetAxisRequestedState,
    SetControllerMode,
    SetInputPosition,
    SetInputVelocity,
    SetInputTorque,
    SetLimits,
    StartAnticogging,
    SetTrajVelocityLim,
    SetTrajAccelLim,
    SetTrajInertia,
    RebootODrive,
    ClearErrors,
    SetLinearCount,
    SetPositionGain,
    SetVelocityGain,
}

impl ReadComm {
    /// The fixed numeric id this command has on the wire.
    pub open spec fn spec_id(self) -> u32 {
        match self {
            ReadComm::Heartbeat => 0x001,
            ReadComm::MotorError => 0x003,
            ReadComm::EncoderError => 0x004,
            ReadComm::SensorlessError => 0x005,
            ReadComm::GetEncoderEstimates => 0x009,
            ReadComm::GetEncoderCount => 0x00A,
            ReadComm::GetIQSetpoint => 0x014,
            ReadComm::GetSensorlessEstimates => 0x015,
            ReadComm::GetVBusVoltage => 0x017,
        }
    }

    /// The command whose wire id is `id`, if any.
    pub open spec fn spec_from_id(id: u32) -> Option<ReadComm> {
        if id == 0x001 {
            Some(ReadComm::Heartbeat)
        } else if id == 0x003 {
            Some(ReadComm::MotorError)
        } else if id == 0x004 {
            Some(ReadComm::EncoderError)
        } else if id == 0x005 {
            Some(ReadComm::SensorlessError)
        } else if id == 0x009 {
            Some(ReadComm::GetEncoderEstimates)
        } else if id == 0x00A {
            Some(ReadComm::GetEncoderCount)
        } else if id == 0x014 {
            Some(ReadComm::GetIQSetpoint)
        } else if id == 0x015 {
            Some(ReadComm::GetSensorlessEstimates)
        } else if id == 0x017 {
            Some(ReadComm::GetVBusVoltage)
        } else {
            None
        }
    }

    pub fn id(&self) -> (r: u32)
        ensures
            r == self.spec_id(),
    {
        match self {
            ReadComm::Heartbeat => 0x001,
            ReadComm::MotorError => 0x003,
            ReadComm::EncoderError => 0x004,
            ReadComm::SensorlessError => 0x005,
            ReadComm::GetEncoderEstimates => 0x009,
            ReadComm::GetEncoderCount => 0x00A,
            ReadComm::GetIQSetpoint => 0x014,
            ReadComm::GetSensorlessEstimates => 0x015,
            ReadComm::GetVBusVoltage => 0x017,
        }
    }

    pub fn from_id(id: u32) -> (r: Option<ReadComm>)
        ensures
            r == Self::spec_from_id(id),
    {
        if id == 0x001 {
            Some(ReadComm::Heartbeat)
        } else if id == 0x003 {
            Some(ReadComm::MotorError)
        } else if id == 0x004 {
            Some(ReadComm::EncoderError)
        } else if id == 0x005 {
            Some(ReadComm::SensorlessError)
        } else if id == 0x009 {
            Some(ReadComm::GetEncoderEstimates)
        } else if id == 0x00A {
            Some(ReadComm::GetEncoderCount)
        } else if id == 0x014 {
            Some(ReadComm::GetIQSetpoint)
        } else if id == 0x015 {
            Some(ReadComm::GetSensorlessEstimates)
        } else if id == 0x017 {
            Some(ReadComm::GetVBusVoltage)
        } else {
            None
        }
    }
}

impl WriteComm {
    /// The fixed numeric id this command has on the wire.
    pub open spec fn spec_id(self) -> u32 {
        match self {
            WriteComm::EStop => 0x002,
            WriteComm::SetAxisNodeID => 0x006,
            WriteComm::SetAxisRequestedState => 0x007,
            WriteComm::SetControllerMode => 0x00B,
            WriteComm::SetInputPosition => 0x00C,
            WriteComm::SetInputVelocity => 0x00D,
            WriteComm::SetInputTorque => 0x00E,
            WriteComm::SetLimits => 0x00F,
            WriteComm::StartAnticogging => 0x010,
            WriteComm::SetTrajVelocityLim => 0x011,
            WriteComm::SetTrajAccelLim => 0x012,
            WriteComm::SetTrajInertia => 0x013,
            WriteComm::RebootODrive => 0x016,
            WriteComm::ClearErrors => 0x018,
            WriteComm::SetLinearCount => 0x019,
            WriteComm::SetPositionGain => 0x01A,
            WriteComm::SetVelocityGain => 0x01B,
        }
    }

    /// The command whose wire id is `id`, if any.
    pub open spec fn spec_from_id(id: u32) -> Option<WriteComm> {
        if id == 0x002 {
            Some(WriteComm::EStop)
        } else if id == 0x006 {
            Some(WriteComm::SetAxisNodeID)
        } else if id == 0x007 {
            Some(WriteComm::SetAxisRequestedState)
        } else if id == 0x00B {
            Some(WriteComm::SetControllerMode)
        } else if id == 0x00C {
            Some(WriteComm::SetInputPosition)
        } else if id == 0x00D {
            Some(WriteComm::SetInputVelocity)
        } else if id == 0x00E {
            Some(WriteComm::SetInputTorque)
        } else if id == 0x00F {
            Some(WriteComm::SetLimits)
        } else if id == 0x010 {
            Some(WriteComm::StartAnticogging)
        } else if id == 0x011 {
            Some(WriteComm::SetTrajVelocityLim)
        } else if id == 0x012 {
            Some(WriteComm::SetTrajAccelLim)
        } else if id == 0x013 {
            Some(WriteComm::SetTrajInertia)
        } else if id == 0x016 {
            Some(WriteComm::RebootODrive)
        } else if id == 0x018 {
            Some(WriteComm::ClearErrors)
        } else if id == 0x019 {
            Some(WriteComm::SetLinearCount)
        } else if id == 0x01A {
            Some(WriteComm::SetPositionGain)
        } else if id == 0x01B {
            Some(WriteComm::SetVelocityGain)
        } else {
            None
        }
    }

    pub fn id(&self) -> (r: u32)
        ensures
            r == self.spec_id(),
    {
        match self {
            WriteComm::EStop => 0x002,
            WriteComm::SetAxisNodeID => 0x006,
            WriteComm::SetAxisRequestedState => 0x007,
            WriteComm::SetControllerMode => 0x00B,
            WriteComm::SetInputPosition => 0x00C,
            WriteComm::SetInputVelocity => 0x00D,
            WriteComm::SetInputTorque => 0x00E,
            WriteComm::SetLimits => 0x00F,
            WriteComm::StartAnticogging => 0x010,
            WriteComm::SetTrajVelocityLim => 0x011,
            WriteComm::SetTrajAccelLim => 0x012,
            WriteComm::SetTrajInertia => 0x013,
            WriteComm::RebootODrive => 0x016,
            WriteComm::ClearErrors => 0x018,
            WriteComm::SetLinearCount => 0x019,
            WriteComm::SetPositionGain => 0x01A,
            WriteComm::SetVelocityGain => 0x01B,
        }
    }

    pub fn from_id(id: u32) -> (r: Option<WriteComm>)
        ensures
            r == Self::spec_from_id(id),
    {
        if id == 0x002 {
            Some(WriteComm::EStop)
        } else if id == 0x006 {
            Some(WriteComm::SetAxisNodeID)
        } else if id == 0x007 {
            Some(WriteComm::SetAxisRequestedState)
        } else if id == 0x00B {
            Some(WriteComm::SetControllerMode)
        } else if id == 0x00C {
            Some(WriteComm::SetInputPosition)
        } else if id == 0x00D {
            Some(WriteComm::SetInputVelocity)
        } else if id == 0x00E {
            Some(WriteComm::SetInputTorque)
        } else if id == 0x00F {
            Some(WriteComm::SetLimits)
        } else if id == 0x010 {
            Some(WriteComm::StartAnticogging)
        } else if id == 0x011 {
            Some(WriteComm::SetTrajVelocityLim)
        } else if id == 0x012 {
            Some(WriteComm::SetTrajAccelLim)
        } else if id == 0x013 {
            Some(WriteComm::SetTrajInertia)
        } else if id == 0x016 {
            Some(WriteComm::RebootODrive)
        } else if id == 0x018 {
            Some(WriteComm::ClearErrors)
        } else if id == 0x019 {
            Some(WriteComm::SetLinearCount)
        } else if id == 0x01A {
            Some(WriteComm::SetPositionGain)
        } else if id == 0x01B {
            Some(WriteComm::SetVelocityGain)
        } else {
            None
        }
    }
}

/// One bus command, classified into exactly one of the two capability
/// classes.  The class decides both the encoding (a read is sent with the
/// "request for reply" flag) and the broker's behavior (only reads wait for
/// a bus reply).
#[derive(Clone, Copy, PartialEq, Eq, Structural, Debug, Hash)]
pub enum ODriveCommand {
    Read(ReadComm),
    Write(WriteComm),
}

impl ODriveCommand {
    /// The fixed numeric id this command has on the wire.
    pub open spec fn spec_id(self) -> u32 {
        match self {
            ODriveCommand::Read(c) => c.spec_id(),
            ODriveCommand::Write(c) => c.spec_id(),
        }
    }

    pub open spec fn spec_is_read(self) -> bool {
        self is Read
    }

    pub fn id(&self) -> (r: u32)
        ensures
            r == self.spec_id(),
    {
        match self {
            ODriveCommand::Read(c) => c.id(),
            ODriveCommand::Write(c) => c.id(),
        }
    }

    /// Whether this command expects a reply frame from the device.
    pub fn is_read(&self) -> (r: bool)
        ensures
            r == self.spec_is_read(),
    {
        match self {
            ODriveCommand::Read(_) => true,
            ODriveCommand::Write(_) => false,
        }
    }

    /// Every wire id is below 32: the low five bits of an arbitration id
    /// hold the command, the rest hold the device address.
    pub proof fn lemma_id_fits(self)
        ensures
            self.spec_id() < 32,
    {
    }

    /// Distinct commands never share a wire id, so an id resolves to at
    /// most one command.
    pub proof fn lemma_id_injective(a: ODriveCommand, b: ODriveCommand)
        ensures
            a.spec_id() == b.spec_id() ==> a == b,
    {
    }
}

/// Resolving a read command's own wire id finds it again, and never finds
/// a write command: the two id sets are disjoint.
pub proof fn lemma_read_id_resolution(c: ReadComm)
    ensures
        ReadComm::spec_from_id(c.spec_id()) == Some(c),
        WriteComm::spec_from_id(c.spec_id()) is None,
{
}

/// Resolving a write command's own wire id finds it again, and never finds
/// a read command: the two id sets are disjoint.
pub proof fn lemma_write_id_resolution(c: WriteComm)
    ensures
        WriteComm::spec_from_id(c.spec_id()) == Some(c),
        ReadComm::spec_from_id(c.spec_id()) is None,
{
}

/// The requested-state values a `SetAxisRequestedState` command can carry.
pub enum ODriveAxisState {
    Undefined,
    Idle,
    StartupSequence,
    FullCalibrationSequence,
    MotorCalibration,
    EncoderIndexSearch,
    EncoderOffsetCalib,
    ClosedLoop,
    LockinSpin,
    EncoderDirFind,
    Homing,
    EncoderHallPolarityCalib,
    EncoderHallPhaseCalib,
}

impl ODriveAxisState {
    /// The numeric code the device documents for this state.
    pub open spec fn spec_code(self) -> u8 {
        match self {
            ODriveAxisState::Undefined => 0x0,
            ODriveAxisState::Idle => 0x1,
            ODriveAxisState::StartupSequence => 0x2,
            ODriveAxisState::FullCalibrationSequence => 0x3,
            ODriveAxisState::MotorCalibration => 0x4,
            ODriveAxisState::EncoderIndexSearch => 0x5,
            ODriveAxisState::EncoderOffsetCalib => 0x7,
            ODriveAxisState::ClosedLoop => 0x8,
            ODriveAxisState::LockinSpin => 0x9,
            ODriveAxisState::EncoderDirFind => 0xA,
            ODriveAxisState::Homing => 0xB,
            ODriveAxisState::EncoderHallPolarityCalib => 0xC,
            ODriveAxisState::EncoderHallPhaseCalib => 0xD,
        }
    }

    pub fn code(&self) -> (r: u8)
        ensures
            r == self.spec_code(),
    {
        match self {
            ODriveAxisState::Undefined => 0x0,
            ODriveAxisState::Idle => 0x1,
            ODriveAxisState::StartupSequence => 0x2,
            ODriveAxisState::FullCalibrationSequence => 0x3,
            ODriveAxisState::MotorCalibration => 0x4,
            ODriveAxisState::EncoderIndexSearch => 0x5,
            ODriveAxisState::EncoderOffsetCalib => 0x7,
            ODriveAxisState::ClosedLoop => 0x8,
            ODriveAxisState::LockinSpin => 0x9,
            ODriveAxisState::EncoderDirFind => 0xA,
            ODriveAxisState::Homing => 0xB,
            ODriveAxisState::EncoderHallPolarityCalib => 0xC,
            ODriveAxisState::EncoderHallPhaseCalib => 0xD,
        }
    }
}

/// The control-mode values a `SetControllerMode` command can carry.
pub enum ControlMode {
    VoltageControl,
    TorqueControl,
    VelocityControl,
    PositionControl,
}

impl ControlMode {
    pub open spec fn spec_code(self) -> u8 {
        match self {
            ControlMode::VoltageControl => 0x0,
            ControlMode::TorqueControl => 0x1,
            ControlMode::VelocityControl => 0x2,
            ControlMode::PositionControl => 0x3,
        }
    }

    pub fn code(&self) -> (r: u8)
        ensures
            r == self.spec_code(),
    {
        match self {
            ControlMode::VoltageControl => 0x0,
            ControlMode::TorqueControl => 0x1,
            ControlMode::VelocityControl => 0x2,
            ControlMode::PositionControl => 0x3,
        }
    }
}

/// The input-mode values a `SetControllerMode` command can carry.
pub enum InputMode {
    Inactive,
    Passthrough,
    VelRamp,
    PosFilter,
    MixChannels,
    TrapTraj,
    TorqueRamp,
    Mirror,
    Tuning,
}

impl InputMode {
    pub open spec fn spec_code(self) -> u8 {
        match self {
            InputMode::Inactive => 0x0,
            InputMode::Passthrough => 0x1,
            InputMode::VelRamp => 0x2,
            InputMode::PosFilter => 0x3,
            InputMode::MixChannels => 0x4,
            InputMode::TrapTraj => 0x5,
            InputMode::TorqueRamp => 0x6,
            InputMode::Mirror => 0x7,
            InputMode::Tuning => 0x8,
        }
    }

    pub fn code(&self) -> (r: u8)
        ensures
            r == self.spec_code(),
    {
        match self {
            InputMode::Inactive => 0x0,
            InputMode::Passthrough => 0x1,
            InputMode::VelRamp => 0x2,
            InputMode::PosFilter => 0x3,
            InputMode::MixChannels => 0x4,
            InputMode::TrapTraj => 0x5,
            InputMode::TorqueRamp => 0x6,
            InputMode::Mirror => 0x7,
            InputMode::Tuning => 0x8,
        }
    }
}

} // verus!
