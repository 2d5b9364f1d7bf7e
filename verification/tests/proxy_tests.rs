use rustodrive::canproxy::{CANProxy, ProxyError};
use rustodrive::cansocket::MockCanSocket;
use rustodrive::commands::{ODriveAxisState, ODriveCommand, ReadComm, WriteComm};
use rustodrive::messages::CANRequest;
use rustodrive::odrivegroup::ODriveGroup;
use rustodrive::response::{ManyResponses, ResponseType};
use rustodrive::threads::sort_responses;

#[test]
fn test_register_thread() {
    let mut can_proxy = CANProxy::new(MockCanSocket::open("fakecan"));

    can_proxy.register_ro("thread 1").unwrap();
    can_proxy.register_ro("thread 2").unwrap();
    can_proxy.register_rw("thread 3").unwrap();

    assert_eq!(can_proxy.registered_count(), 3);

    can_proxy.unregister("thread 1");
    assert_eq!(can_proxy.registered_count(), 2);
}

#[test]
fn test_register_duplicate() {
    let mut can_proxy = CANProxy::new(MockCanSocket::open("fakecan"));

    can_proxy.register_ro("thread 1").unwrap();
    let second = can_proxy.register_ro("thread 1");
    assert!(matches!(second, Err(ProxyError::ThreadDuplicateID)));
    assert_eq!(can_proxy.registered_count(), 1);
}

#[test]
fn test_unregister_rw_thread() {
    let mut can_proxy = CANProxy::new(MockCanSocket::open("fakecan"));
    let _rw = can_proxy.register_rw("thread 1").unwrap();
    let _ro = can_proxy.register_ro("thread 2").unwrap();

    assert_ne!(can_proxy.rw_thread_name(), None);
    assert_eq!(can_proxy.registered_count(), 2);

    can_proxy.stop_threads();
    can_proxy.unregister_all();

    assert_eq!(can_proxy.rw_thread_name(), None);
    assert_eq!(can_proxy.registered_count(), 0);
}

#[test]
fn test_register_duplicate_rw_thread() {
    let mut can_proxy = CANProxy::new(MockCanSocket::open("fakecan"));
    let first = can_proxy.register_rw("thread 1");
    assert!(first.is_ok());
    let second = can_proxy.register_rw("thread 2");
    assert!(matches!(second, Err(ProxyError::ThreadDuplicateID)));
    assert_eq!(can_proxy.rw_thread_name(), Some("thread 1"));
}

#[test]
fn test_liveness_flag_clears_once() {
    let mut can_proxy = CANProxy::new(MockCanSocket::open("fakecan"));
    let comm = can_proxy.register_rw("thread 1").unwrap();
    assert!(can_proxy.is_alive());
    assert!(comm.is_alive());
    can_proxy.stop_threads();
    // every holder of the shared flag sees the stop
    assert!(!can_proxy.is_alive());
    assert!(!comm.is_alive());
    // the flag is one-way: a second stop changes nothing
    can_proxy.stop_threads();
    assert!(!can_proxy.is_alive());
}

#[test]
fn test_rw_slot_frees_on_unregister() {
    let mut can_proxy = CANProxy::new(MockCanSocket::open("fakecan"));
    let _rw = can_proxy.register_rw("thread 1").unwrap();
    can_proxy.unregister("thread 1");
    assert_eq!(can_proxy.rw_thread_name(), None);
    // the slot is free again
    assert!(can_proxy.register_rw("thread 2").is_ok());
}

/// Test that a Read command responds back with a response (the mock bus
/// echoes the stored frame with a substituted payload)
#[test]
fn test_read_command_response() {
    let mut can_proxy = CANProxy::new(MockCanSocket::open("fakecan"));
    let request = CANRequest {
        axis: 2,
        cmd: ODriveCommand::Read(ReadComm::EncoderError),
        data: [0; 8],
    };

    let comm = can_proxy.register_rw("thread 1").unwrap();
    comm.thread_to_proxy(request);
    can_proxy.process_messages().unwrap();
    let response = comm.proxy_to_thread();

    // The response keys match the request, but the payload is the mock
    // device's own
    let can_response = response.unwrap().body().1;
    assert_eq!(request.axis, can_response.axis);
    assert_eq!(request.cmd, can_response.cmd);
    assert_ne!(request.data, can_response.data);
}

/// Write command responds with a bodyless success to notify it was sent
/// over the CAN bus
#[test]
fn test_write_command_response() {
    let mut can_proxy = CANProxy::new(MockCanSocket::open("fakecan"));
    let request = CANRequest {
        axis: 2,
        cmd: ODriveCommand::Write(WriteComm::SetAxisNodeID),
        data: [0; 8],
    };

    let comm = can_proxy.register_rw("thread 1").unwrap();
    comm.thread_to_proxy(request);
    can_proxy.process_messages().unwrap();
    let response = comm.proxy_to_thread();

    assert_eq!(response, Ok(ResponseType::Bodyless { req: request }));
    // a write never waits for the bus
    assert_eq!(can_proxy.pending_count(), 0);
}

/// The response set is sorted according to the order the requests were
/// sent, even though the mock bus replies newest-first
#[test]
fn test_request_many() {
    let mut can_proxy = CANProxy::new(MockCanSocket::open("fakecan"));

    let mut requests = Vec::new();
    for i in 0..10 {
        requests.push(CANRequest {
            axis: i,
            cmd: ODriveCommand::Read(ReadComm::EncoderError),
            data: [1; 8],
        })
    }

    let comm = can_proxy.register_rw("thread 1").unwrap();
    for req in requests.iter() {
        comm.thread_to_proxy(*req);
    }
    // each tick forwards the queue and answers at most one inbound frame
    for _ in 0..10 {
        can_proxy.process_messages().unwrap();
    }

    let mut responses = Vec::new();
    for _ in 0..10 {
        responses.push(comm.proxy_to_thread());
    }
    let response = sort_responses(&requests, responses).unwrap_all();

    // The responses come back in the same order as the requests made
    for (expected_req, res) in requests.into_iter().zip(response) {
        let (_, actual_response) = res.body();
        assert_eq!(actual_response.is_response(&expected_req), true);
    }
}

/// Correlation is oldest-first: with two outstanding requests sharing one
/// key, a single inbound frame answers the one submitted first
#[test]
fn test_oldest_request_answered_first() {
    let mut can_proxy = CANProxy::new(MockCanSocket::open("fakecan"));
    let first = CANRequest {
        axis: 1,
        cmd: ODriveCommand::Read(ReadComm::Heartbeat),
        data: [1; 8],
    };
    let second = CANRequest {
        axis: 1,
        cmd: ODriveCommand::Read(ReadComm::Heartbeat),
        data: [2; 8],
    };

    let rw = can_proxy.register_rw("thread 1").unwrap();
    let ro = can_proxy.register_ro("thread 2").unwrap();

    rw.thread_to_proxy(first);
    can_proxy.process_messages().unwrap();
    // thread 1's request is outstanding; now thread 2 submits the same key
    assert_eq!(can_proxy.pending_count(), 0); // already answered: one tick echoed it
    let reply_first = rw.proxy_to_thread();
    assert_eq!(reply_first.clone().unwrap().body().0, first);

    // Submit both concurrently before any bus frame comes back: drain
    // both submissions in one tick, then answer one frame per tick.
    rw.thread_to_proxy(first);
    ro.thread_to_proxy(second);
    can_proxy.process_messages().unwrap();
    // one of the two echoes was consumed by the oldest request: thread 1's
    assert_eq!(can_proxy.pending_count(), 1);
    let reply = rw.proxy_to_thread();
    assert_eq!(reply.unwrap().body().0, first);

    // the next tick answers the remaining, younger request
    can_proxy.process_messages().unwrap();
    assert_eq!(can_proxy.pending_count(), 0);
    let reply = ro.proxy_to_thread();
    assert_eq!(reply.unwrap().body().0, second);
}

#[test]
fn test_axes() {
    let mut proxy = CANProxy::new(MockCanSocket::open("fakecan"));

    let expected_request = CANRequest {
        axis: 1,
        cmd: ODriveCommand::Write(WriteComm::SetAxisRequestedState),
        data: [ODriveAxisState::FullCalibrationSequence.code(), 0, 0, 0, 0, 0, 0, 0],
    };

    let can_rw = proxy.register_rw("thread 1").unwrap();
    let odrives = ODriveGroup::new(can_rw, &[0, 1, 2, 3, 4, 5]);

    let request = odrives.get_axis(&1).set_state(ODriveAxisState::FullCalibrationSequence);
    assert_eq!(request, expected_request);
}

#[test]
fn test_all_axes() {
    let mut proxy = CANProxy::new(MockCanSocket::open("fakecan"));

    let mut expected_requests = Vec::new();
    for i in 0..6 {
        expected_requests.push(CANRequest {
            axis: i,
            cmd: ODriveCommand::Write(WriteComm::SetAxisRequestedState),
            data: [ODriveAxisState::FullCalibrationSequence.code(), 0, 0, 0, 0, 0, 0, 0],
        })
    }

    // build one set-state write per axis, in ascending axis order, the
    // way the batched call builds them
    let builder_rw = proxy.register_rw("builder").unwrap();
    let odrives = ODriveGroup::new(builder_rw, &[0, 1, 2, 3, 4, 5]);
    let mut requests = Vec::new();
    for i in 0..6usize {
        requests.push(odrives.get_axis(&i).set_state(ODriveAxisState::FullCalibrationSequence));
    }
    assert_eq!(requests, expected_requests);
    drop(odrives);
    proxy.unregister("builder");

    // submit the whole batch before awaiting any reply
    let can_rw = proxy.register_rw("thread 1").unwrap();
    for req in requests.iter() {
        can_rw.thread_to_proxy(*req);
    }
    proxy.process_messages().unwrap();
    let mut responses = Vec::new();
    for _ in 0..6 {
        responses.push(can_rw.proxy_to_thread());
    }
    let responses = sort_responses(&requests, responses);

    // six bodyless successes, in ascending axis order
    for (request, response) in expected_requests.into_iter().zip(responses) {
        assert_eq!(response, Ok(ResponseType::Bodyless { req: request }));
    }
}

/// The full calibration scenario: the broker's synthesized response to a
/// set-state write is a bodyless success echoing the same request back
#[test]
fn test_set_state_write_is_acknowledged() {
    let mut proxy = CANProxy::new(MockCanSocket::open("fakecan"));
    let request = CANRequest {
        axis: 1,
        cmd: ODriveCommand::Write(WriteComm::SetAxisRequestedState),
        data: [3, 0, 0, 0, 0, 0, 0, 0],
    };
    let can_rw = proxy.register_rw("thread 1").unwrap();
    can_rw.thread_to_proxy(request);
    proxy.process_messages().unwrap();
    assert_eq!(can_rw.proxy_to_thread(), Ok(ResponseType::Bodyless { req: request }));
}
