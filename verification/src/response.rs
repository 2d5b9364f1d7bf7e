//! The outcome model: what a caller gets back for each request it
//! submitted.  A read produces a body-bearing success, a write produces a
//! bodyless acknowledgment, and a frame the bus would not accept produces
//! an error; every outcome carries the original request so a caller can
//! re-associate it with what it sent, even when batched.

use crate::messages::{CANRequest, CANResponse};
use vstd::prelude::*;

verus! {

/// A request together with the reason it failed.
#[derive(Clone, Copy, PartialEq, Debug)]
pub struct ErrorResponse {
    pub request: CANRequest,
    pub err: ODriveError,
}

/// The failure causes the broker can report to a caller.
#[derive(Clone, Copy, PartialEq, Eq, Structural, Debug)]
pub enum ODriveError {
    FailedToSend,
}

/// What a caller receives for one submitted request.
pub type ODriveResponse = Result<ResponseType, ErrorResponse>;

/// A successful outcome: either the device answered with a frame (reads),
/// or the bus accepted the request and no reply will ever come (writes).
#[derive(Clone, Copy, PartialEq, Debug)]
pub enum ResponseType {
    Body { request: CANRequest, response: CANResponse },
    Bodyless { req: CANRequest },
}

impl ResponseType {
    /// The request this outcome answers.
    pub open spec fn spec_request(self) -> CANRequest {
        match self {
            ResponseType::Body { request, response } => request,
            ResponseType::Bodyless { req } => req,
        }
    }

    /// The request and the received frame of a body-bearing response.
    /// Write requests never return a response body, so asking a bodyless
    /// response for one is left out of the contract.
    pub fn body(self) -> (r: (CANRequest, CANResponse))
        requires
            self is Body,
        ensures
            self matches ResponseType::Body { request, response } ==> r == (request, response),
    {
        match self {
            ResponseType::Body { request, response } => (request, response),
            ResponseType::Bodyless { req } => (req, req),
        }
    }

    /// The request this outcome answers.
    pub fn request(self) -> (r: CANRequest)
        ensures
            r == self.spec_request(),
    {
        match self {
            ResponseType::Body { request, response: _ } => request,
            ResponseType::Bodyless { req } => req,
        }
    }
}

/// The request an outcome answers, successful or not.
pub open spec fn spec_response_request(r: ODriveResponse) -> CANRequest {
    match r {
        Ok(t) => t.spec_request(),
        Err(e) => e.request,
    }
}

/// Unwrapping a whole batch of outcomes at once.
pub trait ManyResponses {
    /// The outcomes held, in order.
    spec fn entries(&self) -> Seq<ODriveResponse>;

    /// Strip the `Ok` off every outcome.  An error anywhere in the batch
    /// is left out of the contract: callers use this only where every
    /// request succeeded.
    fn unwrap_all(self) -> (r: Vec<ResponseType>) where Self: Sized
        requires
            forall|i: int| 0 <= i < self.entries().len() ==> self.entries()[i] is Ok,
        ensures
            r@.len() == self.entries().len(),
            forall|i: int| 0 <= i < r@.len() ==> r@[i] == self.entries()[i]->Ok_0,
    ;
}

impl ManyResponses for Vec<ODriveResponse> {
    open spec fn entries(&self) -> Seq<ODriveResponse> {
        self@
    }

    fn unwrap_all(self) -> (r: Vec<ResponseType>) {
        let mut frames: Vec<ResponseType> = Vec::new();
        let n = self.len();
        let mut i: usize = 0;
        while i < n
            invariant
                n == self@.len(),
                0 <= i <= n,
                forall|k: int| 0 <= k < n ==> self@[k] is Ok,
                frames@.len() == i,
                forall|k: int| 0 <= k < i ==> frames@[k] == self@[k]->Ok_0,
            decreases n - i,
        {
            match &self[i] {
                Ok(res) => frames.push(res.clone()),
                Err(_) => (),
            }
            i = i + 1;
        }
        frames
    }
}

} // verus!
