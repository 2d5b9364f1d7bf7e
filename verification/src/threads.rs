//! The client-side capability: what a registered caller thread holds to
//! submit requests and block for their correlated responses.
//!
//! Two variants share one contract and differ only in which commands they
//! may originate: the single read-write thread may submit anything, while
//! any number of read-only threads may submit read commands only.
//!
//! The channels to and from the broker are opaque, so nothing is assumed
//! about what arrives on them.  What is proved instead is the batch
//! re-ordering: however the replies come back, `request_many` hands them
//! out in the order the requests were submitted, each reply carrying the
//! request it answers.

use crate::channels::{flag_load, recv_or_die, send_or_die};
use crate::commands::{ODriveCommand, ReadComm};
use crate::messages::{CANRequest, ODriveCANFrame, ODriveMessage};
use crate::response::{spec_response_request, ErrorResponse, ODriveError, ODriveResponse,
    ResponseType};
use std::sync::atomic::AtomicBool;
use std::sync::mpsc::{Receiver, Sender};
use std::sync::Arc;
use vstd::prelude::*;

verus! {

broadcast use vstd::array::group_array_axioms;

/// No two requests of the sequence share a correlation key.  A batch must
/// satisfy this: replies carry only the key, so two in-flight requests
/// with the same key cannot be told apart.
pub open spec fn no_duplicate_keys(reqs: Seq<CANRequest>) -> bool {
    forall|i: int, j: int| 0 <= i < j < reqs.len() ==> !(#[trigger] reqs[i]).spec_same_key(
        #[trigger] reqs[j],
    )
}

fn data_eq(a: &[u8; 8], b: &[u8; 8]) -> (r: bool)
    ensures
        r == (a@ == b@),
{
    let mut i: usize = 0;
    let mut same: bool = true;
    while i < 8
        invariant
            0 <= i <= 8,
            same == (forall|k: int| 0 <= k < i ==> a@[k] == b@[k]),
        decreases 8 - i,
    {
        if a[i] != b[i] {
            same = false;
        }
        i = i + 1;
    }
    proof {
        if same {
            assert(a@ =~= b@);
        }
    }
    same
}

/// Whole-value equality of two frames: same address, same command, same
/// payload.
pub fn frame_eq(a: &ODriveCANFrame, b: &ODriveCANFrame) -> (r: bool)
    ensures
        r == (a == b),
{
    let r = a.axis == b.axis && a.cmd == b.cmd && data_eq(&a.data, &b.data);
    proof {
        if a.axis == b.axis && a.cmd == b.cmd && a.data@ == b.data@ {
            assert(a.data =~= b.data);
        }
    }
    r
}

/// The request an outcome answers, successful or not.
pub fn response_request_of(resp: &ODriveResponse) -> (q: CANRequest)
    ensures
        q == spec_response_request(*resp),
{
    match resp {
        Ok(t) => (*t).request(),
        Err(e) => e.request,
    }
}

/// Whether a batch holds two requests with the same correlation key; such
/// a batch must be rejected before submission.
pub fn has_duplicate_keys(reqs: &Vec<CANRequest>) -> (r: bool)
    ensures
        r == !no_duplicate_keys(reqs@),
{
    let n = reqs.len();
    let mut i: usize = 0;
    while i < n
        invariant
            0 <= i <= n,
            n == reqs@.len(),
            forall|p: int, q: int| 0 <= p < q < n && p < i ==> !(#[trigger] reqs@[p]).spec_same_key(
                #[trigger] reqs@[q],
            ),
        decreases n - i,
    {
        let mut j: usize = i + 1;
        while j < n
            invariant
                0 <= i < j <= n,
                n == reqs@.len(),
                forall|q: int| i < q < j ==> !(#[trigger] reqs@[i as int]).spec_same_key(reqs@[q]),
            decreases n - j,
        {
            if reqs[i].is_response(&reqs[j]) {
                return true;
            }
            j = j + 1;
        }
        i = i + 1;
    }
    false
}

/// Whether some reply in the pool answers this request, that is,
/// carries exactly this request value, successfully or not.
pub open spec fn has_reply_for(pool: Seq<ODriveResponse>, req: CANRequest) -> bool {
    exists|j: int| 0 <= j < pool.len() && spec_response_request(#[trigger] pool[j]) == req
}

/// Re-associate a pool of replies with the batch that was submitted: the
/// result is in submission order, entry `i` answering request `i`,
/// whatever order the replies arrived in.  Whenever the pool answers a
/// request at all, the entry handed out *is* one of the pool's replies;
/// a send-failure error is synthesized only for a request no pool entry
/// answers, which the broker never leaves behind for a batch it
/// accepted.
pub fn sort_responses(requests: &Vec<CANRequest>, responses: Vec<ODriveResponse>) -> (r: Vec<
    ODriveResponse,
>)
    requires
        no_duplicate_keys(requests@),
    ensures
        r@.len() == requests@.len(),
        forall|i: int| 0 <= i < r@.len() ==> spec_response_request(#[trigger] r@[i])
            == requests@[i],
        forall|i: int|
            0 <= i < r@.len() ==> (if has_reply_for(responses@, requests@[i]) {
                responses@.contains(#[trigger] r@[i])
            } else {
                r@[i] == Err::<ResponseType, ErrorResponse>(
                    ErrorResponse { request: requests@[i], err: ODriveError::FailedToSend },
                )
            }),
{
    let ghost orig = responses@;
    let n = requests.len();
    let mut pool = responses;
    let mut out: Vec<ODriveResponse> = Vec::new();
    let mut i: usize = 0;
    while i < n
        invariant
            0 <= i <= n,
            n == requests@.len(),
            no_duplicate_keys(requests@),
            orig == responses@,
            out@.len() == i,
            forall|k: int| 0 <= k < i ==> spec_response_request(#[trigger] out@[k])
                == requests@[k],
            forall|k: int|
                0 <= k < i ==> (if has_reply_for(orig, requests@[k]) {
                    orig.contains(#[trigger] out@[k])
                } else {
                    out@[k] == Err::<ResponseType, ErrorResponse>(
                        ErrorResponse { request: requests@[k], err: ODriveError::FailedToSend },
                    )
                }),
            forall|j: int| 0 <= j < pool@.len() ==> orig.contains(#[trigger] pool@[j]),
            forall|k: int|
                i <= k < n && has_reply_for(orig, #[trigger] requests@[k]) ==> has_reply_for(
                    pool@,
                    requests@[k],
                ),
        decreases n - i,
    {
        let req = requests[i];
        let mut idx_found: Option<usize> = None;
        let mut idx: usize = 0;
        while idx < pool.len()
            invariant
                0 <= idx <= pool@.len(),
                idx_found matches Some(j) ==> 0 <= j < pool@.len() && spec_response_request(
                    pool@[j as int],
                ) == req,
                idx_found is None ==> forall|k: int|
                    0 <= k < idx ==> spec_response_request(#[trigger] pool@[k]) != req,
            decreases pool@.len() - idx,
        {
            if idx_found.is_none() {
                let q = response_request_of(&pool[idx]);
                if frame_eq(&q, &req) {
                    idx_found = Some(idx);
                }
            }
            idx = idx + 1;
        }
        let ghost pre_pool = pool@;
        match idx_found {
            Some(j) => {
                let resp = pool.remove(j);
                out.push(resp);
                proof {
                    assert(orig.contains(resp));
                    let w = choose|w: int| 0 <= w < orig.len() && orig[w] == resp;
                    assert(spec_response_request(orig[w]) == req);
                    assert(has_reply_for(orig, req));
                    assert forall|k: int|
                        i + 1 <= k < n && has_reply_for(orig, #[trigger] requests@[k]) implies has_reply_for(
                        pool@,
                        requests@[k],
                    ) by {
                        let j2 = choose|j2: int|
                            0 <= j2 < pre_pool.len() && spec_response_request(
                                #[trigger] pre_pool[j2],
                            ) == requests@[k];
                        assert(!requests@[i as int].spec_same_key(requests@[k]));
                        assert(requests@[k] != requests@[i as int]);
                        assert(j2 != j);
                        if j2 < j {
                            assert(pool@[j2] == pre_pool[j2]);
                            assert(spec_response_request(pool@[j2]) == requests@[k]);
                        } else {
                            assert(pool@[j2 - 1] == pre_pool[j2]);
                            assert(spec_response_request(pool@[j2 - 1]) == requests@[k]);
                        }
                    }
                    assert forall|j3: int| 0 <= j3 < pool@.len() implies orig.contains(
                        #[trigger] pool@[j3],
                    ) by {
                        if j3 < j {
                            assert(pool@[j3] == pre_pool[j3]);
                        } else {
                            assert(pool@[j3] == pre_pool[j3 + 1]);
                        }
                    }
                }
            },
            None => {
                proof {
                    assert(!has_reply_for(pre_pool, req));
                    assert(!has_reply_for(orig, req));
                }
                out.push(Err(ErrorResponse { request: req, err: ODriveError::FailedToSend }));
            },
        }
        i = i + 1;
    }
    out
}

fn submit_all(name: &'static str, requester: &Sender<ODriveMessage>, requests: &Vec<CANRequest>) {
    let n = requests.len();
    let mut i: usize = 0;
    while i < n
        invariant
            0 <= i <= n,
            n == requests@.len(),
        decreases n - i,
    {
        let req = requests[i];
        send_or_die(requester, ODriveMessage { thread_name: name, body: req });
        i = i + 1;
    }
}

/// Block until `n` replies have arrived and hand them back in arrival
/// order.  What arrives is the channel's business — nothing is assumed
/// of the received values beyond their number; `sort_responses` states
/// what happens to them whatever they were.
fn collect_responses(receiver: &Receiver<ODriveResponse>, n: usize) -> (r: Vec<ODriveResponse>)
    ensures
        r@.len() == n,
{
    let mut responses: Vec<ODriveResponse> = Vec::new();
    while responses.len() < n
        invariant
            responses@.len() <= n,
        decreases n - responses@.len(),
    {
        responses.push(recv_or_die(receiver));
    }
    responses
}

/// The capability of the one privileged thread: it may submit both read
/// and write commands.
pub struct ReadWriteCANThread {
    thread_name: &'static str,
    requester: Sender<ODriveMessage>,
    receiver: Receiver<ODriveResponse>,
    threads_alive: Arc<AtomicBool>,
}

impl ReadWriteCANThread {
    /// The name this capability was registered under.
    pub closed spec fn spec_name(&self) -> &'static str {
        self.thread_name
    }

    pub fn new(
        thread_name: &'static str,
        requester: Sender<ODriveMessage>,
        receiver: Receiver<ODriveResponse>,
        threads_alive: Arc<AtomicBool>,
    ) -> (r: Self)
        ensures
            r.spec_name() == thread_name,
    {
        Self { thread_name, requester, receiver, threads_alive }
    }

    pub fn thread_name(&self) -> (r: &'static str)
        ensures
            r == self.spec_name(),
    {
        self.thread_name
    }

    /// Hand one frame to the broker, tagged with this thread's name so the
    /// reply finds its way back.
    pub fn thread_to_proxy(&self, frame: CANRequest) {
        send_or_die(&self.requester, ODriveMessage { thread_name: self.thread_name, body: frame });
    }

    /// Block until the broker delivers the next reply for this thread.
    pub fn proxy_to_thread(&self) -> ODriveResponse {
        recv_or_die(&self.receiver)
    }

    /// Submit one request and block until its correlated response, or a
    /// terminal error, arrives.
    pub fn request(&self, msg: CANRequest) -> ODriveResponse {
        self.thread_to_proxy(msg);
        self.proxy_to_thread()
    }

    /// Submit a whole batch before awaiting any reply, then block until
    /// every reply has arrived.  The result is in submission order, entry
    /// `i` answering request `i`, however the bus replied.
    pub fn request_many(&self, messages: Vec<CANRequest>) -> (r: Vec<ODriveResponse>)
        requires
            no_duplicate_keys(messages@),
        ensures
            r@.len() == messages@.len(),
            forall|i: int| 0 <= i < r@.len() ==> spec_response_request(#[trigger] r@[i])
                == messages@[i],
    {
        submit_all(self.thread_name, &self.requester, &messages);
        let replies = collect_responses(&self.receiver, messages.len());
        sort_responses(&messages, replies)
    }

    /// Reads the shared liveness flag; long-running loops check this
    /// between iterations to exit cooperatively.
    pub fn is_alive(&self) -> bool {
        flag_load(&self.threads_alive)
    }
}

/// The capability of an unprivileged thread: it may submit read commands
/// only, so every frame it originates carries an empty payload.
pub struct ReadOnlyCANThread {
    thread_name: &'static str,
    requester: Sender<ODriveMessage>,
    receiver: Receiver<ODriveResponse>,
    threads_alive: Arc<AtomicBool>,
}

impl ReadOnlyCANThread {
    /// The name this capability was registered under.
    pub closed spec fn spec_name(&self) -> &'static str {
        self.thread_name
    }

    pub fn new(
        thread_name: &'static str,
        requester: Sender<ODriveMessage>,
        receiver: Receiver<ODriveResponse>,
        threads_alive: Arc<AtomicBool>,
    ) -> (r: Self)
        ensures
            r.spec_name() == thread_name,
    {
        Self { thread_name, requester, receiver, threads_alive }
    }

    pub fn thread_name(&self) -> (r: &'static str)
        ensures
            r == self.spec_name(),
    {
        self.thread_name
    }

    /// Hand one frame to the broker, tagged with this thread's name so the
    /// reply finds its way back.  This capability may only originate
    /// read commands.
    pub fn thread_to_proxy(&self, frame: CANRequest)
        requires
            frame.cmd is Read,
    {
        send_or_die(&self.requester, ODriveMessage { thread_name: self.thread_name, body: frame });
    }

    /// Block until the broker delivers the next reply for this thread.
    pub fn proxy_to_thread(&self) -> ODriveResponse {
        recv_or_die(&self.receiver)
    }

    /// Submit one read request to the given device and block until its
    /// correlated response, or a terminal error, arrives.
    pub fn request(&self, axis: u32, cmd: ReadComm) -> ODriveResponse {
        self.thread_to_proxy(
            CANRequest { axis, cmd: ODriveCommand::Read(cmd), data: [0, 0, 0, 0, 0, 0, 0, 0] },
        );
        self.proxy_to_thread()
    }

    /// Submit a whole batch of read requests before awaiting any reply,
    /// then block until every reply has arrived.  The result is in
    /// submission order, entry `i` answering the read built from pair `i`.
    pub fn request_many(&self, messages: Vec<(u32, ReadComm)>) -> (r: Vec<ODriveResponse>)
        requires
            forall|i: int, j: int| 0 <= i < j < messages@.len() ==> !((#[trigger] messages@[i]).0
                == (#[trigger] messages@[j]).0 && messages@[i].1 == messages@[j].1),
        ensures
            r@.len() == messages@.len(),
            forall|i: int| 0 <= i < r@.len() ==> {
                let q = spec_response_request(#[trigger] r@[i]);
                q.axis == messages@[i].0 && q.cmd == ODriveCommand::Read(messages@[i].1)
                    && q.data@ == Seq::new(8, |k: int| 0u8)
            },
    {
        let n = messages.len();
        let mut requests: Vec<CANRequest> = Vec::new();
        let mut i: usize = 0;
        while i < n
            invariant
                0 <= i <= n,
                n == messages@.len(),
                requests@.len() == i,
                forall|k: int| 0 <= k < i ==> (#[trigger] requests@[k]).axis == messages@[k].0
                    && requests@[k].cmd == ODriveCommand::Read(messages@[k].1)
                    && requests@[k].data@ == Seq::new(8, |m: int| 0u8),
            decreases n - i,
        {
            let (axis, cmd) = messages[i];
            let req = CANRequest {
                axis,
                cmd: ODriveCommand::Read(cmd),
                data: [0, 0, 0, 0, 0, 0, 0, 0],
            };
            proof {
                assert(req.data@ =~= Seq::new(8, |m: int| 0u8));
            }
            requests.push(req);
            i = i + 1;
        }
        proof {
            assert(no_duplicate_keys(requests@));
        }
        submit_all(self.thread_name, &self.requester, &requests);
        let replies = collect_responses(&self.receiver, requests.len());
        sort_responses(&requests, replies)
    }

    /// Reads the shared liveness flag; long-running loops check this
    /// between iterations to exit cooperatively.
    pub fn is_alive(&self) -> bool {
        flag_load(&self.threads_alive)
    }
}

} // verus!
