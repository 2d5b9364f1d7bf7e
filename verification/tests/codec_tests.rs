use rustodrive::commands::{ODriveCommand, ReadComm, WriteComm};
use rustodrive::messages::{CANRequest, CANResponse, ODriveCANFrame};

#[test]
fn test_conversion_to_frame() {
    // Tests if converting from the CAN frame and back retains the right data
    let msg1 = CANRequest {
        axis: 0x1,
        cmd: ODriveCommand::Write(WriteComm::SetInputPosition), // this is cmd id 0x0C
        data: [0; 8],
    };

    let msg2 = CANRequest {
        axis: 0x293874,
        cmd: ODriveCommand::Read(ReadComm::GetEncoderCount), // this is cmd id 0x0A
        data: [0; 8],
    };

    // Calculated by hand against the ODrive CAN protocol description.
    let rtr_enabled = true;
    let can_frame = msg1.to_can(rtr_enabled);
    assert_eq!(can_frame.id(), 0x2C);
    assert_eq!(can_frame.data(), [0, 0, 0, 0, 0, 0, 0, 0]);
    assert_eq!(can_frame.is_rtr(), rtr_enabled);

    // Test it converts back properly
    assert_eq!(msg1, msg1.clone()); // test that equals works
    assert_eq!(msg1, ODriveCANFrame::from_can(&can_frame));

    // test that conversion works with read messages; converting back
    // ignores the rtr bit so either true/false is fine
    assert_eq!(msg2, ODriveCANFrame::from_can(&msg2.to_can(true)));
}

#[test]
fn test_is_response() {
    let msg1 = CANRequest {
        axis: 0x1,
        cmd: ODriveCommand::Write(WriteComm::SetInputPosition),
        data: [0; 8],
    };
    let fake_response = CANResponse {
        axis: 0x1,
        cmd: ODriveCommand::Write(WriteComm::SetInputPosition),
        data: [1; 8], // the data has changed but the rest is the same
    };
    assert_eq!(msg1.is_response(&fake_response), true);
}

#[test]
fn test_unknown_command_id() {
    // 0xFFFF & 0x1F == 0x1F, which names no command at all
    assert_eq!(ODriveCANFrame::try_to_cmd(0xFFFF), None);
    // 0x00 and 0x08 are the two unassigned ids below 0x1C
    assert_eq!(ODriveCANFrame::try_to_cmd(0x00), None);
    assert_eq!(ODriveCANFrame::try_to_cmd(0x08), None);
}

#[test]
fn test_round_trip_both_flags() {
    // decode(encode(req, rtr)) == req for both rtr values
    let req = CANRequest {
        axis: 7,
        cmd: ODriveCommand::Read(ReadComm::GetVBusVoltage),
        data: [1, 2, 3, 4, 5, 6, 7, 8],
    };
    assert_eq!(req, ODriveCANFrame::from_can(&req.to_can(true)));
    assert_eq!(req, ODriveCANFrame::from_can(&req.to_can(false)));
}

#[test]
fn test_set_state_encoding() {
    // device address 1, SetAxisRequestedState (0x07), payload 3 in the
    // first byte: arbitration id (1 << 5) | 0x07 == 0x27, payload
    // unchanged, and no reply expected for a write command
    let req = CANRequest {
        axis: 1,
        cmd: ODriveCommand::Write(WriteComm::SetAxisRequestedState),
        data: [3, 0, 0, 0, 0, 0, 0, 0],
    };
    let frame = req.encode();
    assert_eq!(frame.id(), 0x27);
    assert_eq!(frame.data(), [3, 0, 0, 0, 0, 0, 0, 0]);
    assert_eq!(frame.is_rtr(), false);

    // a read command is encoded expecting a reply
    let read = CANRequest {
        axis: 1,
        cmd: ODriveCommand::Read(ReadComm::Heartbeat),
        data: [0; 8],
    };
    assert_eq!(read.encode().is_rtr(), true);
}
