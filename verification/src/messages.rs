//! The frame codec: the lossless, bit-exact mapping between a typed device
//! command (`ODriveCANFrame`) and the raw bus frame it travels as.
//!
//! The arbitration id of a bus frame packs the device address and the
//! command id together: `address << 5 | command id`.  The low five bits
//! hold the command, everything above holds the address, so an address must
//! fit in 24 bits for the arbitration id to stay inside the 29-bit extended
//! id space of the bus.

use crate::commands::{lemma_read_id_resolution, lemma_write_id_resolution, ODriveCommand,
    ReadComm, WriteComm};
use vstd::prelude::*;

verus! {

/// A request sent towards a device; the payload meaning depends on the
/// command.
pub type CANRequest = ODriveCANFrame;

/// A frame received from a device in answer to a request.
pub type CANResponse = ODriveCANFrame;

/// The largest device address whose arbitration id still fits the 29-bit
/// extended id space: the address occupies all bits above the five command
/// bits.
pub const MAX_AXIS: u32 = 0x00FF_FFFF;

/// One typed bus frame: a device address, a command, and up to eight bytes
/// of payload (shorter payloads are zero-padded).
#[derive(Clone, Copy, PartialEq, Eq, Debug, Hash)]
pub struct ODriveCANFrame {
    pub axis: u32,
    pub cmd: ODriveCommand,
    pub data: [u8; 8],
}

/// The verified code relies on `socketcan::CANFrame` only through the
/// contracts below; the type itself is opaque.
#[verifier::external_type_specification]
#[verifier::external_body]
pub struct ExCANFrame(socketcan::CANFrame);

/// The error `socketcan::CANFrame::new` reports for an oversized id or
/// payload.
#[verifier::external_type_specification]
#[verifier::external_body]
pub struct ExConstructionError(socketcan::ConstructionError);

/// The arbitration id a `socketcan::CANFrame` carries, as
/// `socketcan::CANFrame::id` returns it.
pub uninterp spec fn can_frame_id(f: socketcan::CANFrame) -> u32;

/// The payload bytes a `socketcan::CANFrame` carries, as
/// `socketcan::CANFrame::data` returns them.
pub uninterp spec fn can_frame_data(f: socketcan::CANFrame) -> Seq<u8>;

/// Whether a `socketcan::CANFrame` has the remote-transmission-request flag
/// set, as `socketcan::CANFrame::is_rtr` returns it.
pub uninterp spec fn can_frame_rtr(f: socketcan::CANFrame) -> bool;

/// Relies on `socketcan::CANFrame::new`: it accepts exactly the ids up to
/// the 29-bit extended-frame mask and payloads up to eight bytes, and the
/// constructed frame hands back the same id, bytes and rtr flag.
pub assume_specification [ socketcan::CANFrame::new ](
    id: u32,
    data: &[u8],
    rtr: bool,
    err: bool,
) -> (r: Result<socketcan::CANFrame, socketcan::ConstructionError>)
    ensures
        r is Ok <==> (data@.len() <= 8 && id <= 0x1FFF_FFFFu32),
        r matches Ok(f) ==> can_frame_id(f) == id && can_frame_data(f) == data@
            && can_frame_rtr(f) == rtr,
;

/// Relies on `socketcan::CANFrame::id`: the arbitration id without the
/// flag bits.  The accessor masks with the 29-bit extended-frame mask, so
/// the result always fits it.
pub assume_specification [ socketcan::CANFrame::id ](f: &socketcan::CANFrame) -> (r: u32)
    ensures
        r == can_frame_id(*f),
        r <= 0x1FFF_FFFFu32,
;

/// Relies on `socketcan::CANFrame::data`: a slice of exactly the payload
/// bytes the frame was built with.
pub assume_specification [ socketcan::CANFrame::data ](f: &socketcan::CANFrame) -> (r: &[u8])
    ensures
        r@ == can_frame_data(*f),
;

/// Relies on `socketcan::CANFrame::is_rtr`.
pub assume_specification [ socketcan::CANFrame::is_rtr ](f: &socketcan::CANFrame) -> (r: bool)
    ensures
        r == can_frame_rtr(*f),
;

impl ODriveCANFrame {
    /// A frame is encodable when its device address leaves room for the
    /// five command bits inside the bus's 29-bit arbitration id.
    pub open spec fn valid(self) -> bool {
        self.axis <= MAX_AXIS
    }

    /// The arbitration id this frame travels under: address shifted past
    /// the five command bits, command id in the low bits.
    pub open spec fn spec_arb_id(self) -> u32 {
        (self.axis * 32 + self.cmd.spec_id()) as u32
    }

    /// Two frames correlate iff device address and command agree; the
    /// payload plays no part in correlation.
    pub open spec fn spec_same_key(self, other: ODriveCANFrame) -> bool {
        self.axis == other.axis && self.cmd == other.cmd
    }

    /// The command encoded in the low five bits of an arbitration id,
    /// resolved against the write set first, then the read set.
    pub open spec fn spec_to_cmd(can_id: u32) -> Option<ODriveCommand> {
        let cmd_id = can_id & 0x1F;
        match WriteComm::spec_from_id(cmd_id) {
            Some(w) => Some(ODriveCommand::Write(w)),
            None => match ReadComm::spec_from_id(cmd_id) {
                Some(r) => Some(ODriveCommand::Read(r)),
                None => None,
            },
        }
    }

    /// The numeric id of this frame's command.
    pub fn get_cmd_id(&self) -> (r: u32)
        ensures
            r == self.cmd.spec_id(),
    {
        self.cmd.id()
    }

    /// The command a received arbitration id names.  An id naming no
    /// command means the wire and the codec tables are out of sync; that
    /// is fatal, not recoverable, so the unknown ids are left out of
    /// this contract and callers test with `try_to_cmd` first.
    pub fn to_cmd(can_id: u32) -> (r: ODriveCommand)
        requires
            Self::spec_to_cmd(can_id) is Some,
        ensures
            Some(r) == Self::spec_to_cmd(can_id),
    {
        let cmd_id = can_id & 0x1F;
        match WriteComm::from_id(cmd_id) {
            Some(w) => ODriveCommand::Write(w),
            None => match ReadComm::from_id(cmd_id) {
                Some(r) => ODriveCommand::Read(r),
                None => {
                    // never reached: the contract admits known ids only
                    proof {
                        assert(false);
                    }
                    ODriveCommand::Read(ReadComm::Heartbeat)
                },
            },
        }
    }

    /// The total resolver: the command the id names, and `None` exactly
    /// when it names no command at all.
    pub fn try_to_cmd(can_id: u32) -> (r: Option<ODriveCommand>)
        ensures
            r == Self::spec_to_cmd(can_id),
    {
        let cmd_id = can_id & 0x1F;
        match WriteComm::from_id(cmd_id) {
            Some(w) => Some(ODriveCommand::Write(w)),
            None => match ReadComm::from_id(cmd_id) {
                Some(r) => Some(ODriveCommand::Read(r)),
                None => None,
            },
        }
    }

    /// Encode this frame for the bus.  `rtr` marks the frame as expecting
    /// a reply and must be set exactly for read commands.
    pub fn to_can(&self, rtr: bool) -> (r: socketcan::CANFrame)
        requires
            self.valid(),
        ensures
            can_frame_id(r) == self.spec_arb_id(),
            can_frame_data(r) == self.data@,
            can_frame_rtr(r) == rtr,
    {
        let cmd_id = self.get_cmd_id();
        proof {
            self.cmd.lemma_id_fits();
        }
        let id: u32 = self.axis << 5u32 | cmd_id;
        proof {
            let axis = self.axis;
            assert((axis << 5u32 | cmd_id) == axis * 32 + cmd_id
                && (axis << 5u32 | cmd_id) <= 0x1FFF_FFFFu32) by (bit_vector)
                requires
                    axis <= 0x00FF_FFFFu32,
                    cmd_id < 32u32,
            ;
        }
        let frame = socketcan::CANFrame::new(id, self.data.as_slice(), rtr, false);
        frame.unwrap()
    }

    /// Encode this frame the way it is submitted to the device: the
    /// reply-needed flag is set exactly when the command is a read,
    /// which is the only kind the device answers.
    pub fn encode(&self) -> (r: socketcan::CANFrame)
        requires
            self.valid(),
        ensures
            can_frame_id(r) == self.spec_arb_id(),
            can_frame_data(r) == self.data@,
            can_frame_rtr(r) == (self.cmd is Read),
    {
        self.to_can(self.cmd.is_read())
    }

    /// Decode a bus frame whose id names a known command and whose payload
    /// is a full eight bytes; `try_from_can` is the total variant that
    /// reports failure instead.
    pub fn from_can(frame: &socketcan::CANFrame) -> (r: ODriveCANFrame)
        requires
            Self::spec_to_cmd(can_frame_id(*frame)) is Some,
            can_frame_data(*frame).len() == 8,
        ensures
            r.axis == can_frame_id(*frame) >> 5u32,
            Some(r.cmd) == Self::spec_to_cmd(can_frame_id(*frame)),
            r.data@ == can_frame_data(*frame),
            r.valid(),
    {
        let id = frame.id();
        let axis = id >> 5u32;
        proof {
            assert(id <= 0x1FFF_FFFFu32 ==> (id >> 5u32) <= 0x00FF_FFFFu32) by (bit_vector);
        }
        let cmd = Self::to_cmd(id);
        let bytes = frame.data();
        let data: [u8; 8] = [bytes[0], bytes[1], bytes[2], bytes[3], bytes[4], bytes[5], bytes[6],
            bytes[7]];
        proof {
            assert(data@ =~= can_frame_data(*frame));
        }
        ODriveCANFrame { axis, cmd, data }
    }

    /// Decode a bus frame, reporting `None` when the id names no known
    /// command or the payload is not a full eight bytes.
    pub fn try_from_can(frame: &socketcan::CANFrame) -> (r: Option<ODriveCANFrame>)
        ensures
            r is Some <==> (Self::spec_to_cmd(can_frame_id(*frame)) is Some
                && can_frame_data(*frame).len() == 8),
            r matches Some(f) ==> f.axis == can_frame_id(*frame) >> 5u32
                && Some(f.cmd) == Self::spec_to_cmd(can_frame_id(*frame))
                && f.data@ == can_frame_data(*frame) && f.valid(),
    {
        let id = frame.id();
        if Self::try_to_cmd(id).is_none() {
            return None;
        }
        if frame.data().len() != 8 {
            return None;
        }
        Some(Self::from_can(frame))
    }

    /// If the device address and the command match, then the received
    /// frame must be the response: this is the sole correlation rule, so
    /// it is exact but coarse, and it ignores the payload.
    pub fn is_response(&self, other: &ODriveCANFrame) -> (r: bool)
        ensures
            r == self.spec_same_key(*other),
    {
        self.axis == other.axis && self.cmd == other.cmd
    }

    /// Round-trip law of the codec: a valid frame, encoded with either rtr
    /// flag value, decodes back to exactly itself, field for field.
    pub proof fn lemma_codec_round_trip(self)
        requires
            self.valid(),
        ensures
            Self::spec_to_cmd(self.spec_arb_id()) == Some(self.cmd),
            self.spec_arb_id() >> 5u32 == self.axis,
            self.spec_arb_id() <= 0x1FFF_FFFFu32,
    {
        let axis = self.axis;
        let cmd_id = self.cmd.spec_id();
        self.cmd.lemma_id_fits();
        let arb = self.spec_arb_id();
        assert(arb == axis * 32 + cmd_id ==> (arb >> 5u32 == axis && arb & 0x1F == cmd_id
            && arb <= 0x1FFF_FFFFu32)) by (bit_vector)
            requires
                axis <= 0x00FF_FFFFu32,
                cmd_id < 32u32,
        ;
        assert(arb == axis * 32 + cmd_id);
        match self.cmd {
            ODriveCommand::Read(c) => lemma_read_id_resolution(c),
            ODriveCommand::Write(c) => lemma_write_id_resolution(c),
        }
    }
}

/// One queued submission inside the broker: the frame to send and the name
/// of the registered thread that is waiting for its outcome.
#[derive(Clone, Copy, PartialEq, Debug)]
pub struct ODriveMessage {
    pub thread_name: &'static str,
    pub body: ODriveCANFrame,
}

} // verus!
