//! The bus handle the broker owns: exactly the two operations the broker
//! requires of a CAN device, and a deterministic in-memory double of one.
//!
//! Any type with this shape may stand behind the broker — real hardware
//! through a kernel socket, or the test double — without changing the
//! broker's logic; that substitutability is what makes the broker's
//! behavior testable off the bus.

use crate::messages::{can_frame_data, can_frame_id, can_frame_rtr, ODriveCANFrame};
use vstd::prelude::*;

verus! {

/// The shape of a bus handle: a non-blocking write and a non-blocking
/// poll.  Nothing is assumed about what a bus does with a frame or hands
/// back; the broker states what holds whatever the bus did.
pub trait CanBus {
    /// Attempt to put one frame on the bus; `false` means the bus
    /// rejected or could not accept the frame.
    fn write_frame(&mut self, frame: &socketcan::CANFrame) -> bool;

    /// Poll for one inbound frame; `None` means nothing is available
    /// right now, which is not an error, just nothing to do this tick.
    fn read_frame(&mut self) -> Option<socketcan::CANFrame>;
}

/// A deterministic bus double: it accepts every frame, keeps each
/// read-type frame (the device only ever answers reads), and echoes kept
/// frames back newest-first — deliberately out of submission order — with
/// a substituted payload, the way a device would answer with fresh data.
pub struct MockCanSocket {
    waiting: Vec<ODriveCANFrame>,
}

/// The payload every echoed frame carries in place of the request's own,
/// so an echo is distinguishable from what was sent.
pub open spec fn spec_echo_data() -> Seq<u8> {
    seq![99u8, 99u8, 99u8, 99u8, 99u8, 99u8, 99u8, 99u8]
}

impl MockCanSocket {
    /// The double ignores the interface name; it exists so a test can
    /// stand where a kernel socket would be opened.
    pub fn open(_ifname: &str) -> (r: MockCanSocket)
        ensures
            r.frames_waiting() == Seq::<ODriveCANFrame>::empty(),
    {
        MockCanSocket { waiting: Vec::new() }
    }

    /// The read-type frames written and not yet echoed back, oldest
    /// first.
    pub closed spec fn frames_waiting(&self) -> Seq<ODriveCANFrame> {
        self.waiting@
    }

    /// Accept one frame: a decodable read-type frame is kept for
    /// echoing, anything else is swallowed, and nothing is ever
    /// rejected.
    pub fn accept(&mut self, frame: &socketcan::CANFrame) -> (r: bool)
        ensures
            r == true,
            match ODriveCANFrame::spec_to_cmd(can_frame_id(*frame)) {
                Some(cmd) => {
                    if cmd is Read && can_frame_data(*frame).len() == 8 {
                        exists|f: ODriveCANFrame|
                            final(self).frames_waiting() == old(self).frames_waiting().push(f)
                                && Some(#[trigger] f.cmd) == ODriveCANFrame::spec_to_cmd(
                                can_frame_id(*frame),
                            ) && f.axis == can_frame_id(*frame) >> 5u32 && f.data@
                                == can_frame_data(*frame)
                    } else {
                        final(self).frames_waiting() == old(self).frames_waiting()
                    }
                },
                None => final(self).frames_waiting() == old(self).frames_waiting(),
            },
    {
        match ODriveCANFrame::try_from_can(frame) {
            Some(decoded) => {
                if decoded.cmd.is_read() {
                    self.waiting.push(decoded);
                } else {
                }
            },
            None => {},
        }
        true
    }

    /// Echo the newest kept frame, if any: same address and command,
    /// substituted payload, and — as a device reply — without the
    /// request-for-reply flag.
    pub fn echo(&mut self) -> (r: Option<socketcan::CANFrame>)
        ensures
            old(self).frames_waiting().len() == 0 ==> r is None && final(self).frames_waiting()
                == old(self).frames_waiting(),
            old(self).frames_waiting().len() > 0 ==> {
                let kept = old(self).frames_waiting().last();
                final(self).frames_waiting() == old(self).frames_waiting().drop_last()
                    && match r {
                    Some(f) => can_frame_id(f) == kept.spec_arb_id() && can_frame_data(f)
                        == spec_echo_data() && can_frame_rtr(f) == false,
                    None => !kept.valid(),
                }
            },
    {
        match self.waiting.pop() {
            Some(mut echoed) => {
                // A real device answers with its own payload; substitute
                // one so an echo is distinguishable from the request.
                echoed.data = [99, 99, 99, 99, 99, 99, 99, 99];
                proof {
                    assert(echoed.data@ =~= spec_echo_data());
                }
                if echoed.axis <= crate::messages::MAX_AXIS {
                    Some(echoed.to_can(false))
                } else {
                    None
                }
            },
            None => None,
        }
    }
}

impl CanBus for MockCanSocket {
    fn write_frame(&mut self, frame: &socketcan::CANFrame) -> bool {
        self.accept(frame)
    }

    fn read_frame(&mut self) -> Option<socketcan::CANFrame> {
        self.echo()
    }
}

} // verus!
