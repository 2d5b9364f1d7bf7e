//! Thin shims over the standard message channels the broker and its
//! client threads talk through.  The channels themselves are opaque to
//! verification: nothing is assumed about what arrives on one, and every
//! function that consumes a received value states what holds whatever the
//! value was.
//!
//! A lost channel peer means the broker or a client thread is gone, which
//! the design treats as a lifecycle error that is fatal to the calling
//! thread, not a recoverable condition.

use vstd::prelude::*;

verus! {

/// The sending half of a standard channel, used opaquely.
#[verifier::external_type_specification]
#[verifier::external_body]
#[verifier::reject_recursive_types(T)]
pub struct ExSender<T>(std::sync::mpsc::Sender<T>);

/// The receiving half of a standard channel, used opaquely.
#[verifier::external_type_specification]
#[verifier::external_body]
#[verifier::reject_recursive_types(T)]
pub struct ExReceiver<T>(std::sync::mpsc::Receiver<T>);

/// Relies on `std::sync::mpsc::channel`: a fresh connected
/// sender/receiver pair.
#[verifier::external_body]
pub fn channel_pair<T>() -> (std::sync::mpsc::Sender<T>, std::sync::mpsc::Receiver<T>) {
    std::sync::mpsc::channel()
}

/// Relies on `std::sync::mpsc::Sender::clone`: another sending half of
/// the same channel.
#[verifier::external_body]
pub fn clone_sender<T>(sender: &std::sync::mpsc::Sender<T>) -> std::sync::mpsc::Sender<T> {
    sender.clone()
}

/// Relies on `std::sync::mpsc::Sender::send`.  A send only fails when the
/// receiving half is gone; that is a lifecycle error, fatal to the calling
/// thread.
#[verifier::external_body]
pub fn send_or_die<T>(sender: &std::sync::mpsc::Sender<T>, value: T) {
    sender.send(value).expect("channel peer disconnected")
}

/// Relies on `std::sync::mpsc::Receiver::recv`: blocks until a value
/// arrives.  Recv only fails when the sending half is gone; that is a
/// lifecycle error, fatal to the calling thread.
#[verifier::external_body]
pub fn recv_or_die<T>(receiver: &std::sync::mpsc::Receiver<T>) -> T {
    receiver.recv().expect("channel peer disconnected")
}

/// Relies on `std::sync::mpsc::Receiver::try_recv`: the next queued value
/// if one is waiting, and `None` otherwise (whether the channel is merely
/// empty or already disconnected).
#[verifier::external_body]
pub fn try_recv_opt<T>(receiver: &std::sync::mpsc::Receiver<T>) -> Option<T> {
    match receiver.try_recv() {
        Ok(value) => Some(value),
        Err(_) => None,
    }
}

/// Relies on `std::sync::Arc::clone`: another handle to the same shared
/// liveness flag.
#[verifier::external_body]
pub fn clone_flag(
    flag: &std::sync::Arc<std::sync::atomic::AtomicBool>,
) -> std::sync::Arc<std::sync::atomic::AtomicBool> {
    std::sync::Arc::clone(flag)
}

/// Relies on `std::sync::atomic::AtomicBool::load`: the flag's current
/// value.  Other threads clear the flag concurrently, so nothing is
/// assumed about the value read.
#[verifier::external_body]
pub fn flag_load(flag: &std::sync::Arc<std::sync::atomic::AtomicBool>) -> bool {
    flag.load(std::sync::atomic::Ordering::SeqCst)
}

/// Relies on `std::sync::atomic::AtomicBool::store`: clears the flag.
/// The flag is only ever cleared, never set again: the one-way liveness
/// transition every loop watches for.
#[verifier::external_body]
pub fn flag_clear(flag: &std::sync::Arc<std::sync::atomic::AtomicBool>) {
    flag.store(false, std::sync::atomic::Ordering::SeqCst)
}

} // verus!
