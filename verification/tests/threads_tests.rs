use rustodrive::commands::{ODriveCommand, ReadComm};
use rustodrive::messages::{CANRequest, ODriveMessage};
use rustodrive::response::{ErrorResponse, ODriveError, ODriveResponse, ResponseType};
use rustodrive::threads::{has_duplicate_keys, sort_responses, ReadWriteCANThread};
use std::sync::atomic::AtomicBool;
use std::sync::mpsc::channel;
use std::sync::Arc;

#[test]
fn test_default_read_only_to_proxy() {
    let threads_running = Arc::new(AtomicBool::new(true));
    let (thread_requester, proxy_receiver) = channel::<ODriveMessage>();
    let (_proxy_sender, thread_receiver) = channel::<ODriveResponse>();
    let rw_communicator =
        ReadWriteCANThread::new("test", thread_requester, thread_receiver, threads_running);

    let can_frame = CANRequest {
        axis: 1,
        cmd: ODriveCommand::Read(ReadComm::Heartbeat),
        data: [0, 0, 0, 0, 0, 0, 0, 0],
    };
    let expected_msg = ODriveMessage { thread_name: "test", body: can_frame };

    rw_communicator.thread_to_proxy(can_frame);

    let data_received = proxy_receiver.recv().unwrap();
    assert_eq!(data_received, expected_msg);
}

/// This tests that the communicator can receive messages using
/// proxy_to_thread()
#[test]
fn test_default_proxy_to_thread() {
    let threads_running = Arc::new(AtomicBool::new(true));
    let (thread_requester, _proxy_receiver) = channel::<ODriveMessage>();
    let (proxy_sender, thread_receiver) = channel::<ODriveResponse>();
    let rw_communicator =
        ReadWriteCANThread::new("test", thread_requester, thread_receiver, threads_running);

    let fake_request = CANRequest {
        axis: 1,
        cmd: ODriveCommand::Read(ReadComm::EncoderError),
        data: [0; 8],
    };
    let response = Err(ErrorResponse { request: fake_request, err: ODriveError::FailedToSend });

    proxy_sender.send(response.clone()).unwrap();
    let response_received = rw_communicator.proxy_to_thread();

    assert_eq!(response, response_received);
}

#[test]
fn test_sort_responses_reversed() {
    // replies in reverse arrival order come out in submission order
    let mut requests = Vec::new();
    for i in 0..4 {
        requests.push(CANRequest {
            axis: i,
            cmd: ODriveCommand::Read(ReadComm::Heartbeat),
            data: [0; 8],
        });
    }
    let mut responses: Vec<ODriveResponse> = Vec::new();
    for req in requests.iter().rev() {
        responses.push(Ok(ResponseType::Body { request: *req, response: *req }));
    }
    let sorted = sort_responses(&requests, responses);
    assert_eq!(sorted.len(), requests.len());
    for (req, resp) in requests.iter().zip(sorted) {
        assert_eq!(resp.unwrap().request(), *req);
    }
}

#[test]
fn test_duplicate_key_detection() {
    let base = CANRequest {
        axis: 3,
        cmd: ODriveCommand::Read(ReadComm::MotorError),
        data: [0; 8],
    };
    let mut same_key = base;
    same_key.data = [9; 8]; // payload differs, correlation key does not
    let other = CANRequest {
        axis: 4,
        cmd: ODriveCommand::Read(ReadComm::MotorError),
        data: [0; 8],
    };

    assert!(has_duplicate_keys(&vec![base, same_key]));
    assert!(!has_duplicate_keys(&vec![base, other]));
    assert!(!has_duplicate_keys(&vec![base]));
}
