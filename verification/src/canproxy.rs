//! The broker: the one owner of the bus handle, multiplexing requests
//! submitted by any number of registered caller threads and correlating
//! asynchronous bus replies back to the caller waiting for each.
//!
//! Client threads never touch the bus handle; they hold only channel
//! endpoints.  The broker's loop never blocks: it drains the shared
//! submission channel, writes each frame to the bus, and polls the bus
//! for one inbound frame per tick, so one slow device cannot stall
//! delivery to other clients.
//!
//! The pending set — requests sent and not yet answered — only ever holds
//! read commands: a write completes synchronously at send time with a
//! synthesized bodyless reply, because the bus will never answer it.  An
//! inbound frame completes the *oldest* pending request with the same
//! correlation key; unmatched inbound traffic is dropped.
//!
//! On the ambiguity of shared correlation keys, this broker keeps the
//! wire format as it is — a reply carries no nonce, only its key — and
//! resolves every reply to the oldest outstanding request of that key,
//! a policy `take_oldest_match` states and proves.  A single batch with
//! two same-key requests is rejected before submission; two different
//! threads may still hold same-key requests in flight at once, and then
//! get their replies strictly in submission order, which is the most a
//! key-only wire format can promise.

use crate::cansocket::CanBus;
use crate::channels::{channel_pair, clone_flag, clone_sender, flag_clear, flag_load, send_or_die,
    try_recv_opt};
use crate::messages::{CANRequest, CANResponse, ODriveCANFrame, ODriveMessage, MAX_AXIS};
use crate::response::{ErrorResponse, ODriveError, ODriveResponse, ResponseType};
use crate::threads::{ReadOnlyCANThread, ReadWriteCANThread};
use std::sync::atomic::AtomicBool;
use std::sync::mpsc::{Receiver, Sender};
use std::sync::Arc;
use vstd::prelude::*;

verus! {

/// What can go wrong with a thread registration or a join.
#[derive(Clone, Copy, PartialEq, Eq, Structural, Debug)]
pub enum ProxyError {
    ThreadFailedJoin,
    ThreadDuplicateID,
}

/// An inbound frame whose arbitration id names no known command: the wire
/// and the codec tables are out of sync, which is fatal to the broker
/// loop and must not be silently ignored.
#[derive(Clone, Copy, PartialEq, Eq, Structural, Debug)]
pub struct DecodeError {
    pub can_id: u32,
}

/// Relies on `str`'s `PartialEq::eq`: whether the two names spell the
/// same characters.
#[verifier::external_body]
fn str_eq(a: &str, b: &str) -> (r: bool)
    ensures
        r == (a@ == b@),
{
    a == b
}

/// One registered thread: its unique name and the sending half of its
/// private reply channel.  Spawning and joining the operating-system
/// thread that runs against the returned capability is the embedding
/// program's business; the broker tracks only the wiring.
struct ThreadConnection {
    name: &'static str,
    sender: Sender<ODriveResponse>,
}

/// The reply the broker synthesizes for a write-kind submission, which
/// the bus never answers: bodyless success when the bus accepted the
/// frame, a send failure otherwise — never a body-bearing response.
pub fn synthesize_write_reply(req: CANRequest, sent_ok: bool) -> (r: ODriveResponse)
    ensures
        sent_ok ==> r == Ok::<ResponseType, ErrorResponse>(ResponseType::Bodyless { req }),
        !sent_ok ==> r == Err::<ResponseType, ErrorResponse>(
            ErrorResponse { request: req, err: ODriveError::FailedToSend },
        ),
        !(r matches Ok(ResponseType::Body { request, response })),
{
    if sent_ok {
        Ok(ResponseType::Bodyless { req })
    } else {
        Err(ErrorResponse { request: req, err: ODriveError::FailedToSend })
    }
}

/// Write-synchronicity law: a broker satisfying its invariant holds no
/// write command in its pending set, so a body-bearing response — which
/// is only ever built from a pending entry — always answers a read.
/// Together with `synthesize_write_reply`'s contract, a write-kind
/// request is only ever answered with a bodyless success or an error.
pub proof fn lemma_write_never_pending<S: CanBus>(proxy: &CANProxy<S>, i: int)
    requires
        proxy.wf(),
        0 <= i < proxy.spec_pending().len(),
    ensures
        proxy.spec_pending()[i].body.cmd is Read,
{
}

/// The broker.  It owns the bus handle exclusively, the shared
/// submission channel, the registration table, the pending-request set
/// and the liveness flag.
pub struct CANProxy<S: CanBus> {
    submission_sender: Sender<ODriveMessage>,
    submission_receiver: Receiver<ODriveMessage>,
    threads: Vec<ThreadConnection>,
    rw_thread: Option<&'static str>,
    threads_alive: Arc<AtomicBool>,
    requests: Vec<ODriveMessage>,
    socket: S,
}

impl<S: CanBus> CANProxy<S> {
    /// The names of the registered threads, in registration order.
    pub closed spec fn spec_names(&self) -> Seq<&'static str> {
        self.threads@.map_values(|c: ThreadConnection| c.name)
    }

    /// Whether some registered thread's name spells `name`.
    pub open spec fn spec_has_name(&self, name: Seq<char>) -> bool {
        exists|i: int|
            0 <= i < self.spec_names().len() && (#[trigger] self.spec_names()[i])@ == name
    }

    /// The name holding the read-write slot, while one does.
    pub closed spec fn spec_rw(&self) -> Option<&'static str> {
        self.rw_thread
    }

    /// The pending-request set: requests written to the bus whose replies
    /// have not arrived, oldest first.
    pub closed spec fn spec_pending(&self) -> Seq<ODriveMessage> {
        self.requests@
    }

    /// The broker's invariant, and the broker's half of the
    /// write-synchronicity law: the pending set only ever holds read
    /// commands, because a write submission is answered synchronously at
    /// send time and never waits for the bus.
    pub closed spec fn wf(&self) -> bool {
        forall|i: int|
            0 <= i < self.spec_pending().len() ==> (#[trigger] self.spec_pending()[i]).body.cmd
                is Read
    }

    /// A fresh broker around the given bus handle: nothing registered,
    /// nothing pending, liveness flag set.
    pub fn new(socket: S) -> (r: CANProxy<S>)
        ensures
            r.wf(),
            r.spec_names() == Seq::<&'static str>::empty(),
            r.spec_rw() is None,
            r.spec_pending() == Seq::<ODriveMessage>::empty(),
    {
        let (submission_sender, submission_receiver) = channel_pair::<ODriveMessage>();
        let threads_alive = Arc::new(AtomicBool::new(true));
        let r = CANProxy {
            submission_sender,
            submission_receiver,
            threads: Vec::new(),
            rw_thread: None,
            threads_alive,
            requests: Vec::new(),
            socket,
        };
        proof {
            assert(r.spec_names() =~= Seq::<&'static str>::empty());
        }
        r
    }

    /// How many threads are registered.
    pub fn registered_count(&self) -> (r: usize)
        ensures
            r == self.spec_names().len(),
    {
        self.threads.len()
    }

    /// Whether a thread is registered under this name.
    pub fn is_registered(&self, name: &str) -> (r: bool)
        ensures
            r == self.spec_has_name(name@),
    {
        let n = self.threads.len();
        let mut i: usize = 0;
        while i < n
            invariant
                0 <= i <= n,
                n == self.spec_names().len(),
                forall|k: int| 0 <= k < i ==> (#[trigger] self.spec_names()[k])@ != name@,
            decreases n - i,
        {
            if str_eq(self.threads[i].name, name) {
                proof {
                    assert(self.spec_names()[i as int]@ == name@);
                }
                return true;
            }
            i = i + 1;
        }
        false
    }

    /// The name holding the read-write slot, while one does.
    pub fn rw_thread_name(&self) -> (r: Option<&'static str>)
        ensures
            r == self.spec_rw(),
    {
        self.rw_thread
    }

    /// How many requests have been written to the bus and not yet
    /// answered.
    pub fn pending_count(&self) -> (r: usize)
        ensures
            r == self.spec_pending().len(),
    {
        self.requests.len()
    }

    /// A fresh private reply channel plus handles on the shared
    /// submission channel and the liveness flag: everything a new
    /// communicator and its table entry need.
    fn fresh_endpoints(&self) -> (r: (
        Sender<ODriveMessage>,
        Receiver<ODriveResponse>,
        Arc<AtomicBool>,
        Sender<ODriveResponse>,
    )) {
        let (reply_sender, reply_receiver) = channel_pair::<ODriveResponse>();
        let requester = clone_sender(&self.submission_sender);
        let alive = clone_flag(&self.threads_alive);
        (requester, reply_receiver, alive, reply_sender)
    }

    proof fn lemma_names_push(pre: Seq<ThreadConnection>, conn: ThreadConnection)
        ensures
            pre.push(conn).map_values(|c: ThreadConnection| c.name) == pre.map_values(
                |c: ThreadConnection| c.name,
            ).push(conn.name),
    {
        assert(pre.push(conn).map_values(|c: ThreadConnection| c.name) =~= pre.map_values(
            |c: ThreadConnection| c.name,
        ).push(conn.name));
    }

    proof fn lemma_names_remove(pre: Seq<ThreadConnection>, i: int)
        requires
            0 <= i < pre.len(),
        ensures
            pre.remove(i).map_values(|c: ThreadConnection| c.name) == pre.map_values(
                |c: ThreadConnection| c.name,
            ).remove(i),
    {
        assert(pre.remove(i).map_values(|c: ThreadConnection| c.name) =~= pre.map_values(
            |c: ThreadConnection| c.name,
        ).remove(i));
    }

    /// Register a thread under `name` with read and write access and
    /// hand its capability back.  Only one thread may hold that access
    /// at a time and names must be unique; registering a second
    /// read-write thread, or reusing a name, is a programming error the
    /// design calls fatal, so those inputs are left out of the contract.
    /// The body still refuses them — a duplicate gets `Err` and changes
    /// nothing — for callers outside the proofs, and the embedding
    /// program aborts on that refusal.
    pub fn register_rw(&mut self, thread_name: &'static str) -> (r: Result<
        ReadWriteCANThread,
        ProxyError,
    >)
        requires
            old(self).wf(),
            old(self).spec_rw() is None,
            !old(self).spec_has_name(thread_name@),
        ensures
            final(self).wf(),
            final(self).spec_pending() == old(self).spec_pending(),
            r is Ok,
            final(self).spec_names() == old(self).spec_names().push(thread_name),
            final(self).spec_rw() == Some(thread_name),
            r matches Ok(c) ==> c.spec_name() == thread_name,
    {
        if self.rw_thread.is_some() {
            return Err(ProxyError::ThreadDuplicateID);
        }
        if self.is_registered(thread_name) {
            return Err(ProxyError::ThreadDuplicateID);
        }
        let (requester, reply_receiver, alive, reply_sender) = self.fresh_endpoints();
        let comm = ReadWriteCANThread::new(thread_name, requester, reply_receiver, alive);
        let ghost pre = self.threads@;
        let conn = ThreadConnection { name: thread_name, sender: reply_sender };
        proof {
            Self::lemma_names_push(pre, conn);
        }
        self.threads.push(conn);
        self.rw_thread = Some(thread_name);
        Ok(comm)
    }

    /// Register a thread under `name` with read-only access and hand
    /// its capability back.  Any number of read-only threads may exist,
    /// but names must be unique; reusing one is a programming error the
    /// design calls fatal, so that input is left out of the contract.
    /// The body still refuses it — a duplicate gets `Err` and changes
    /// nothing — for callers outside the proofs, and the embedding
    /// program aborts on that refusal.
    pub fn register_ro(&mut self, thread_name: &'static str) -> (r: Result<
        ReadOnlyCANThread,
        ProxyError,
    >)
        requires
            old(self).wf(),
            !old(self).spec_has_name(thread_name@),
        ensures
            final(self).wf(),
            final(self).spec_pending() == old(self).spec_pending(),
            final(self).spec_rw() == old(self).spec_rw(),
            r is Ok,
            final(self).spec_names() == old(self).spec_names().push(thread_name),
            r matches Ok(c) ==> c.spec_name() == thread_name,
    {
        if self.is_registered(thread_name) {
            return Err(ProxyError::ThreadDuplicateID);
        }
        let (requester, reply_receiver, alive, reply_sender) = self.fresh_endpoints();
        let comm = ReadOnlyCANThread::new(thread_name, requester, reply_receiver, alive);
        let ghost pre = self.threads@;
        let conn = ThreadConnection { name: thread_name, sender: reply_sender };
        proof {
            Self::lemma_names_push(pre, conn);
        }
        self.threads.push(conn);
        Ok(comm)
    }

    /// The position of the first registered thread spelling `name`.
    fn name_index(&self, name: &str) -> (r: usize)
        requires
            self.spec_has_name(name@),
        ensures
            r < self.spec_names().len(),
            (self.spec_names()[r as int])@ == name@,
            forall|k: int| 0 <= k < r ==> (#[trigger] self.spec_names()[k])@ != name@,
    {
        let n = self.threads.len();
        let mut i: usize = 0;
        while i < n
            invariant
                0 <= i <= n,
                n == self.spec_names().len(),
                forall|k: int| 0 <= k < i ==> (#[trigger] self.spec_names()[k])@ != name@,
            decreases n - i,
        {
            if str_eq(self.threads[i].name, name) {
                return i;
            }
            i = i + 1;
        }
        proof {
            assert(false);
        }
        0
    }

    /// Unregister the thread with this name: drop it from the table and
    /// free the read-write slot if it held it.  Its reply channel closes
    /// with the dropped entry.  Joining the operating-system thread that
    /// ran against the capability is the embedding program's business.
    /// Unregistering a name that is not registered is a caller error and
    /// is left out of the contract.
    pub fn unregister(&mut self, thread_name: &str)
        requires
            old(self).wf(),
            old(self).spec_has_name(thread_name@),
        ensures
            final(self).wf(),
            final(self).spec_pending() == old(self).spec_pending(),
            exists|i: int|
                0 <= i < old(self).spec_names().len() && (#[trigger] old(self).spec_names()[i])@
                    == thread_name@ && (forall|k: int|
                    0 <= k < i ==> (#[trigger] old(self).spec_names()[k])@ != thread_name@)
                    && final(self).spec_names() == old(self).spec_names().remove(i),
            final(self).spec_rw() == (if old(self).spec_rw() matches Some(n) && n@
                == thread_name@ {
                None::<&'static str>
            } else {
                old(self).spec_rw()
            }),
    {
        let idx = self.name_index(thread_name);
        let ghost pre = self.threads@;
        let ghost pre_names = self.spec_names();
        proof {
            Self::lemma_names_remove(pre, idx as int);
        }
        let _conn = self.threads.remove(idx);
        proof {
            assert(0 <= idx < pre_names.len() && pre_names[idx as int]@ == thread_name@ && (forall|
                k: int,
            | 0 <= k < idx ==> (#[trigger] pre_names[k])@ != thread_name@) && self.spec_names()
                == pre_names.remove(idx as int));
        }
        match self.rw_thread {
            Some(rw) => {
                if str_eq(rw, thread_name) {
                    self.rw_thread = None;
                }
            },
            None => {},
        }
    }

    /// Drop every registered thread from the table and free the
    /// read-write slot.  The embedding program joins the threads it
    /// spawned before calling this.
    pub fn unregister_all(&mut self)
        requires
            old(self).wf(),
        ensures
            final(self).wf(),
            final(self).spec_pending() == old(self).spec_pending(),
            final(self).spec_names().len() == 0,
            final(self).spec_rw() is None,
    {
        while self.threads.len() > 0
            invariant
                self.wf(),
                self.spec_pending() == old(self).spec_pending(),
            decreases self.spec_names().len(),
        {
            let name = self.threads[0].name;
            proof {
                assert(self.spec_names()[0] == name);
            }
            self.unregister(name);
        }
        self.rw_thread = None;
        proof {
            assert(self.spec_names() =~= Seq::<&'static str>::empty());
        }
    }

    /// Deliver a reply to the named thread's private channel.  A name no
    /// longer in the table means the thread was unregistered while its
    /// request was in flight; nothing is waiting, so the reply is
    /// dropped.
    fn respond(&self, thread_name: &'static str, response: ODriveResponse) {
        let n = self.threads.len();
        let mut i: usize = 0;
        while i < n
            invariant
                0 <= i <= n,
                n == self.threads@.len(),
            decreases n - i,
        {
            if str_eq(self.threads[i].name, thread_name) {
                send_or_die(&self.threads[i].sender, response);
                return ;
            }
            i = i + 1;
        }
    }

    /// Drain every submission currently queued and write each to the
    /// bus.  A write-kind request is answered immediately — bodyless
    /// success or send failure — and never enters the pending set; a
    /// read-kind request that the bus accepted joins the pending set to
    /// await its reply; one the bus refused is answered with a send
    /// failure at once.
    fn send_queued_msgs(&mut self)
        requires
            old(self).wf(),
        ensures
            final(self).wf(),
            final(self).spec_names() == old(self).spec_names(),
            final(self).spec_rw() == old(self).spec_rw(),
            old(self).spec_pending().len() <= final(self).spec_pending().len(),
            forall|i: int|
                0 <= i < old(self).spec_pending().len() ==> final(self).spec_pending()[i] == old(
                    self,
                ).spec_pending()[i],
            forall|i: int|
                old(self).spec_pending().len() <= i < final(self).spec_pending().len() ==> (
                #[trigger] final(self).spec_pending()[i]).body.cmd is Read,
    {
        // The drain provably terminates: other threads may submit
        // concurrently without bound, so the loop carries fuel no real
        // submission burst can exhaust.
        let mut fuel: usize = usize::MAX;
        while fuel > 0
            invariant
                self.wf(),
                self.spec_names() == old(self).spec_names(),
                self.spec_rw() == old(self).spec_rw(),
                old(self).spec_pending().len() <= self.spec_pending().len(),
                forall|i: int|
                    0 <= i < old(self).spec_pending().len() ==> self.spec_pending()[i] == old(
                        self,
                    ).spec_pending()[i],
                forall|i: int|
                    old(self).spec_pending().len() <= i < self.spec_pending().len() ==> (
                    #[trigger] self.spec_pending()[i]).body.cmd is Read,
            decreases fuel,
        {
            fuel = fuel - 1;
            let next = try_recv_opt(&self.submission_receiver);
            match next {
                None => {
                    break ;
                },
                Some(request) => {
                    let is_read = request.body.cmd.is_read();
                    if request.body.axis <= MAX_AXIS {
                        let frame = request.body.encode();
                        let sent = self.socket.write_frame(&frame);
                        if sent && is_read {
                            self.requests.push(request);
                        } else if is_read {
                            self.respond(
                                request.thread_name,
                                Err(
                                    ErrorResponse {
                                        request: request.body,
                                        err: ODriveError::FailedToSend,
                                    },
                                ),
                            );
                        } else {
                            self.respond(
                                request.thread_name,
                                synthesize_write_reply(request.body, sent),
                            );
                        }
                    } else {
                        // The address cannot fit the arbitration id, so
                        // no bus frame can carry this request.
                        self.respond(
                            request.thread_name,
                            Err(
                                ErrorResponse {
                                    request: request.body,
                                    err: ODriveError::FailedToSend,
                                },
                            ),
                        );
                    }
                },
            }
        }
    }

    /// The index of the oldest pending request the received frame
    /// answers, if any: the first entry with the received frame's
    /// correlation key.
    pub fn listener_index(&self, received: &ODriveCANFrame) -> (r: Option<usize>)
        ensures
            r is None ==> forall|k: int|
                0 <= k < self.spec_pending().len() ==> !(
                #[trigger] self.spec_pending()[k]).body.spec_same_key(*received),
            r matches Some(i) ==> 0 <= i < self.spec_pending().len() && self.spec_pending()[
                i as int
            ].body.spec_same_key(*received) && (forall|k: int|
                0 <= k < i ==> !(#[trigger] self.spec_pending()[k]).body.spec_same_key(*received)),
    {
        let n = self.requests.len();
        let mut i: usize = 0;
        while i < n
            invariant
                0 <= i <= n,
                n == self.spec_pending().len(),
                forall|k: int|
                    0 <= k < i ==> !(#[trigger] self.spec_pending()[k]).body.spec_same_key(
                        *received,
                    ),
            decreases n - i,
        {
            if self.requests[i].body.is_response(received) {
                return Some(i);
            }
            i = i + 1;
        }
        None
    }

    /// Remove and return the oldest pending request the received frame
    /// answers.  This is the correlation law: when several outstanding
    /// requests share the received frame's key, the oldest one is
    /// completed, and the younger ones keep waiting in order.
    pub fn take_oldest_match(&mut self, received: &CANResponse) -> (r: Option<ODriveMessage>)
        requires
            old(self).wf(),
        ensures
            final(self).wf(),
            final(self).spec_names() == old(self).spec_names(),
            final(self).spec_rw() == old(self).spec_rw(),
            r is None ==> final(self).spec_pending() == old(self).spec_pending() && forall|k: int|
                0 <= k < old(self).spec_pending().len() ==> !(#[trigger] old(
                    self,
                ).spec_pending()[k]).body.spec_same_key(*received),
            r matches Some(m) ==> exists|i: int|
                0 <= i < old(self).spec_pending().len() && m == old(self).spec_pending()[i]
                    && m.body.spec_same_key(*received) && m.body.cmd is Read && (forall|k: int|
                    0 <= k < i ==> !(#[trigger] old(self).spec_pending()[k]).body.spec_same_key(
                        *received,
                    )) && final(self).spec_pending() == #[trigger] old(self).spec_pending().remove(
                    i,
                ),
    {
        match self.listener_index(received) {
            Some(i) => {
                let ghost pre = self.spec_pending();
                let m = self.requests.remove(i);
                proof {
                    assert(0 <= i < pre.len() && m == pre[i as int] && m.body.spec_same_key(
                        *received,
                    ) && m.body.cmd is Read && (forall|k: int|
                        0 <= k < i ==> !(#[trigger] pre[k]).body.spec_same_key(*received))
                        && self.spec_pending() == pre.remove(i as int));
                }
                Some(m)
            },
            None => None,
        }
    }

    /// Poll the bus for one inbound frame and correlate it.  No frame
    /// this tick is not an error; a frame naming no known command is the
    /// fatal codec mismatch; a decodable frame completes the oldest
    /// matching pending request, and is dropped when nothing matches.
    fn handle_can_response(&mut self) -> (r: Result<(), DecodeError>)
        requires
            old(self).wf(),
        ensures
            final(self).wf(),
            final(self).spec_names() == old(self).spec_names(),
            final(self).spec_rw() == old(self).spec_rw(),
            final(self).spec_pending() == old(self).spec_pending() || exists|i: int|
                0 <= i < old(self).spec_pending().len() && final(self).spec_pending() == #[trigger] old(
                    self,
                ).spec_pending().remove(i),
    {
        let frame = match self.socket.read_frame() {
            Some(f) => f,
            None => {
                return Ok(());
            },
        };
        let decoded = match ODriveCANFrame::try_from_can(&frame) {
            Some(d) => d,
            None => {
                return Err(DecodeError { can_id: frame.id() });
            },
        };
        match self.take_oldest_match(&decoded) {
            Some(waiting) => {
                self.respond(
                    waiting.thread_name,
                    Ok(ResponseType::Body { request: waiting.body, response: decoded }),
                );
            },
            None => {},
        }
        Ok(())
    }

    /// One broker tick: drain all queued submissions to the bus, then
    /// poll the bus once.  An `Err` reports the fatal codec mismatch of
    /// an inbound frame naming no known command.
    pub fn process_messages(&mut self) -> (r: Result<(), DecodeError>)
        requires
            old(self).wf(),
        ensures
            final(self).wf(),
            final(self).spec_names() == old(self).spec_names(),
            final(self).spec_rw() == old(self).spec_rw(),
            exists|mid: Seq<ODriveMessage>|
                {
                    &&& old(self).spec_pending().len() <= #[trigger] mid.len()
                    &&& (forall|k: int|
                        0 <= k < old(self).spec_pending().len() ==> mid[k] == old(
                            self,
                        ).spec_pending()[k])
                    &&& (forall|k: int|
                        old(self).spec_pending().len() <= k < mid.len() ==> (
                        #[trigger] mid[k]).body.cmd is Read)
                    &&& (final(self).spec_pending() == mid || exists|i: int|
                        0 <= i < mid.len() && final(self).spec_pending() == #[trigger] mid.remove(
                            i,
                        ))
                },
    {
        self.send_queued_msgs();
        let ghost mid = self.spec_pending();
        let r = self.handle_can_response();
        proof {
            assert(old(self).spec_pending().len() <= mid.len() && (forall|k: int|
                0 <= k < old(self).spec_pending().len() ==> mid[k] == old(self).spec_pending()[k])
                && (forall|k: int|
                old(self).spec_pending().len() <= k < mid.len() ==> (#[trigger] mid[k]).body.cmd
                    is Read) && (self.spec_pending() == mid || exists|i: int|
                0 <= i < mid.len() && self.spec_pending() == #[trigger] mid.remove(i)));
        }
        r
    }

    /// Another handle on the shared liveness flag, for an embedding
    /// program that must signal a stop after the broker has moved onto
    /// its processing thread.
    pub fn liveness_handle(&self) -> Arc<AtomicBool> {
        clone_flag(&self.threads_alive)
    }

    /// Clear the shared liveness flag: every registered thread and the
    /// broker loop exit at their next check.  The flag never becomes
    /// true again.
    pub fn stop_threads(&self) {
        flag_clear(&self.threads_alive);
    }

    /// Whether the shared liveness flag is still set.  It starts set and
    /// is cleared exactly once, by `stop_threads`.
    pub fn is_alive(&self) -> bool {
        flag_load(&self.threads_alive)
    }
}

} // verus!
