//! Per-axis request builders: convenience constructors for the common
//! frames a caller sends to one motor-controller axis.  These only ever
//! *build* request values; submitting them is the communicator's job.

use crate::commands::{ODriveAxisState, ODriveCommand, WriteComm};
use crate::messages::CANRequest;
use vstd::prelude::*;

verus! {

/// The identifier of one addressable motor-controller endpoint.
pub type AxisID = usize;

/// A builder for the frames addressed to one axis.  The motor and
/// encoder builders for the same axis are publicly reachable through it.
#[derive(Clone, Copy)]
pub struct Axis {
    id: AxisID,
    pub motor: Motor,
    pub encoder: Encoder,
}

impl Axis {
    /// The axis every built request is addressed to.
    pub closed spec fn spec_id(&self) -> AxisID {
        self.id
    }

    pub fn new(id: &AxisID) -> (r: Axis)
        ensures
            r.spec_id() == *id,
    {
        Axis { id: *id, motor: Motor::new(id), encoder: Encoder::new(id) }
    }

    /// The axis id this builder addresses.
    pub fn id(&self) -> (r: AxisID)
        ensures
            r == self.spec_id(),
    {
        self.id
    }

    /// A write-kind request to this axis carrying the given payload.
    pub fn send_command(&self, command: WriteComm, data: [u8; 8]) -> (r: CANRequest)
        ensures
            r.axis == self.spec_id() as u32,
            r.cmd == ODriveCommand::Write(command),
            r.data == data,
    {
        CANRequest { axis: self.id as u32, cmd: ODriveCommand::Write(command), data }
    }

    /// The request that asks this axis to enter the given state: the
    /// state's code in the first payload byte, the rest zero.
    pub fn set_state(&self, state: ODriveAxisState) -> (r: CANRequest)
        ensures
            r.axis == self.spec_id() as u32,
            r.cmd == ODriveCommand::Write(WriteComm::SetAxisRequestedState),
            r.data@ == seq![state.spec_code(), 0u8, 0u8, 0u8, 0u8, 0u8, 0u8, 0u8],
    {
        let r = self.send_command(
            WriteComm::SetAxisRequestedState,
            [state.code(), 0, 0, 0, 0, 0, 0, 0],
        );
        proof {
            assert(r.data@ =~= seq![state.spec_code(), 0u8, 0u8, 0u8, 0u8, 0u8, 0u8, 0u8]);
        }
        r
    }
}

/// The encoder-related builders of one axis.
#[derive(Clone, Copy)]
pub struct Encoder {
    id: AxisID,
}

impl Encoder {
    /// The axis this builder addresses.
    pub closed spec fn spec_id(&self) -> AxisID {
        self.id
    }

    pub fn new(id: &AxisID) -> (r: Encoder)
        ensures
            r.spec_id() == *id,
    {
        Encoder { id: *id }
    }

    /// The axis id this builder addresses.
    pub fn id(&self) -> (r: AxisID)
        ensures
            r == self.spec_id(),
    {
        self.id
    }
}

/// The motor-related builders of one axis.
#[derive(Clone, Copy)]
pub struct Motor {
    id: AxisID,
}

impl Motor {
    /// The axis this builder addresses.
    pub closed spec fn spec_id(&self) -> AxisID {
        self.id
    }

    pub fn new(id: &AxisID) -> (r: Motor)
        ensures
            r.spec_id() == *id,
    {
        Motor { id: *id }
    }

    /// The axis id this builder addresses.
    pub fn id(&self) -> (r: AxisID)
        ensures
            r == self.spec_id(),
    {
        self.id
    }
}

} // verus!
