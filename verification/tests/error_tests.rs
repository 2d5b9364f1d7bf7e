use rustodrive::canproxy::{CANProxy, DecodeError};
use rustodrive::cansocket::{CanBus, MockCanSocket};
use rustodrive::commands::{ODriveCommand, ReadComm, WriteComm};
use rustodrive::messages::CANRequest;
use rustodrive::response::{ErrorResponse, ODriveError};
use socketcan::CANFrame;

/// A bus that refuses every frame: every submission must come back as a
/// send failure.
struct RejectingBus;

impl CanBus for RejectingBus {
    fn write_frame(&mut self, _frame: &CANFrame) -> bool {
        false
    }

    fn read_frame(&mut self) -> Option<CANFrame> {
        None
    }
}

/// A bus that hands back one frame whose arbitration id names no known
/// command: the fatal codec-mismatch case.
struct GarbageBus {
    served: bool,
}

impl CanBus for GarbageBus {
    fn write_frame(&mut self, _frame: &CANFrame) -> bool {
        true
    }

    fn read_frame(&mut self) -> Option<CANFrame> {
        if self.served {
            None
        } else {
            self.served = true;
            // 0x08 is one of the unassigned command ids
            Some(CANFrame::new(0x08, &[0; 8], false, false).unwrap())
        }
    }
}

#[test]
fn test_send_failure_is_reported_to_sender() {
    let mut can_proxy = CANProxy::new(RejectingBus);
    let write = CANRequest {
        axis: 1,
        cmd: ODriveCommand::Write(WriteComm::EStop),
        data: [0; 8],
    };
    let read = CANRequest {
        axis: 2,
        cmd: ODriveCommand::Read(ReadComm::Heartbeat),
        data: [0; 8],
    };

    let comm = can_proxy.register_rw("thread 1").unwrap();
    comm.thread_to_proxy(write);
    comm.thread_to_proxy(read);
    can_proxy.process_messages().unwrap();

    // both callers get an error response; neither request waits
    assert_eq!(
        comm.proxy_to_thread(),
        Err(ErrorResponse { request: write, err: ODriveError::FailedToSend })
    );
    assert_eq!(
        comm.proxy_to_thread(),
        Err(ErrorResponse { request: read, err: ODriveError::FailedToSend })
    );
    assert_eq!(can_proxy.pending_count(), 0);
}

#[test]
fn test_oversized_address_is_reported_to_sender() {
    // an address too large for the arbitration id cannot be put on the
    // bus at all
    let mut can_proxy = CANProxy::new(MockCanSocket::open("fakecan"));
    let request = CANRequest {
        axis: 0x0100_0000,
        cmd: ODriveCommand::Read(ReadComm::Heartbeat),
        data: [0; 8],
    };

    let comm = can_proxy.register_rw("thread 1").unwrap();
    comm.thread_to_proxy(request);
    can_proxy.process_messages().unwrap();

    assert_eq!(
        comm.proxy_to_thread(),
        Err(ErrorResponse { request, err: ODriveError::FailedToSend })
    );
    assert_eq!(can_proxy.pending_count(), 0);
}

#[test]
fn test_decode_fault_is_fatal_not_swallowed() {
    let mut can_proxy = CANProxy::new(GarbageBus { served: false });
    let fault = can_proxy.process_messages();
    assert_eq!(fault, Err(DecodeError { can_id: 0x08 }));
}
