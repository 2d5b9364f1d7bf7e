//! A convenience interface over a whole group of axes: it owns the
//! read-write communicator and a builder per axis, so a caller can send
//! one request to a chosen axis, or the same kind of request to every
//! axis at once, without assembling frames by hand.
//!
//! The axis builders are kept in ascending axis order, so the batched
//! replies of `all_axes` come back in ascending axis order too, whatever
//! order the bus answered in.

use crate::axis::{Axis, AxisID};
use crate::messages::CANRequest;
use crate::response::{spec_response_request, ODriveResponse};
use crate::threads::{no_duplicate_keys, ReadWriteCANThread};
use vstd::prelude::*;

verus! {

/// Whether `q` is an output the request builder `f` can produce for the
/// axis builder with this value: the tie between a batched reply and the
/// closure that built its request.
pub open spec fn built_by<F: Fn(&Axis) -> CANRequest>(f: F, ax_val: Axis, q: CANRequest) -> bool {
    exists|ax: &Axis| *ax == ax_val && #[trigger] call_ensures(f, (ax,), q)
}

/// The group: the privileged communicator plus one builder per axis,
/// ascending by axis id.
pub struct ODriveGroup {
    can: ReadWriteCANThread,
    axes: Vec<Axis>,
}

impl ODriveGroup {
    /// The axis builders, ascending by axis id.
    pub closed spec fn spec_axes(&self) -> Seq<Axis> {
        self.axes@
    }

    /// Strictly ascending axis ids, each small enough to fit the
    /// arbitration id of a bus frame.
    pub open spec fn wf(&self) -> bool {
        &&& forall|p: int, q: int|
            0 <= p < q < self.spec_axes().len() ==> (#[trigger] self.spec_axes()[p]).spec_id() < (
            #[trigger] self.spec_axes()[q]).spec_id()
        &&& forall|p: int|
            0 <= p < self.spec_axes().len() ==> (#[trigger] self.spec_axes()[p]).spec_id()
                <= 0x00FF_FFFF
    }

    /// Whether the group holds a builder for this axis id.
    pub open spec fn spec_has_axis(&self, id: AxisID) -> bool {
        exists|k: int|
            0 <= k < self.spec_axes().len() && (#[trigger] self.spec_axes()[k]).spec_id() == id
    }

    /// A group over the given axis ids — duplicates collapse, order does
    /// not matter — wired to the given communicator.  Each id must leave
    /// room for the five command bits of an arbitration id.
    pub fn new(can: ReadWriteCANThread, axis_ids: &'static [AxisID]) -> (r: ODriveGroup)
        requires
            forall|j: int| 0 <= j < axis_ids@.len() ==> #[trigger] axis_ids@[j] <= 0x00FF_FFFF,
        ensures
            r.wf(),
            forall|j: int|
                0 <= j < axis_ids@.len() ==> r.spec_has_axis(#[trigger] axis_ids@[j]),
            forall|k: int|
                0 <= k < r.spec_axes().len() ==> axis_ids@.contains(
                    (#[trigger] r.spec_axes()[k]).spec_id(),
                ),
    {
        let mut axes: Vec<Axis> = Vec::new();
        let n = axis_ids.len();
        let mut i: usize = 0;
        while i < n
            invariant
                0 <= i <= n,
                n == axis_ids@.len(),
                forall|j: int| 0 <= j < axis_ids@.len() ==> #[trigger] axis_ids@[j] <= 0x00FF_FFFF,
                forall|p: int, q: int|
                    0 <= p < q < axes@.len() ==> (#[trigger] axes@[p]).spec_id() < (
                    #[trigger] axes@[q]).spec_id(),
                forall|p: int|
                    0 <= p < axes@.len() ==> axis_ids@.contains(
                        (#[trigger] axes@[p]).spec_id(),
                    ),
                forall|j: int|
                    0 <= j < i ==> exists|k: int|
                        0 <= k < axes@.len() && (#[trigger] axes@[k]).spec_id() == #[trigger] axis_ids@[j],
            decreases n - i,
        {
            let id = axis_ids[i];
            let m = axes.len();
            let mut pos: usize = 0;
            while pos < m && axes[pos].id() < id
                invariant
                    0 <= pos <= m,
                    m == axes@.len(),
                    forall|k: int| 0 <= k < pos ==> (#[trigger] axes@[k]).spec_id() < id,
                decreases m - pos,
            {
                pos = pos + 1;
            }
            let ghost pre = axes@;
            if pos < m && axes[pos].id() == id {
                // already present: a duplicate id collapses
                proof {
                    assert(axes@[pos as int].spec_id() == id);
                    assert forall|j: int| 0 <= j < i + 1 implies exists|k: int|
                        0 <= k < axes@.len() && (#[trigger] axes@[k]).spec_id()
                            == #[trigger] axis_ids@[j] by {
                        if j == i {
                            assert(0 <= pos < axes@.len() && axes@[pos as int].spec_id()
                                == axis_ids@[j as int]);
                        }
                    }
                }
            } else {
                let ax = Axis::new(&id);
                axes.insert(pos, ax);
                proof {
                    assert(forall|p: int|
                        0 <= p < axes@.len() ==> #[trigger] axes@[p] == (if p < pos {
                            pre[p]
                        } else if p == pos {
                            ax
                        } else {
                            pre[p - 1]
                        }));
                    assert(forall|p: int, q: int|
                        0 <= p < q < axes@.len() ==> (#[trigger] axes@[p]).spec_id() < (
                        #[trigger] axes@[q]).spec_id());
                    assert(axis_ids@.contains(axes@[pos as int].spec_id()));
                    assert forall|j: int| 0 <= j < i + 1 implies exists|k: int|
                        0 <= k < axes@.len() && (#[trigger] axes@[k]).spec_id()
                            == #[trigger] axis_ids@[j] by {
                        if j == i {
                            assert(0 <= pos < axes@.len() && axes@[pos as int].spec_id()
                                == axis_ids@[j as int]);
                        } else {
                            let k0 = choose|k0: int|
                                0 <= k0 < pre.len() && (#[trigger] pre[k0]).spec_id()
                                    == axis_ids@[j];
                            if k0 < pos {
                                assert(axes@[k0].spec_id() == axis_ids@[j as int]);
                            } else {
                                assert(axes@[k0 + 1].spec_id() == axis_ids@[j as int]);
                            }
                        }
                    }
                }
            }
            i = i + 1;
        }
        let ghost built = axes@;
        let r = ODriveGroup { can, axes };
        proof {
            assert forall|j: int| 0 <= j < axis_ids@.len() implies r.spec_has_axis(
                #[trigger] axis_ids@[j],
            ) by {
                let k = choose|k: int|
                    0 <= k < built.len() && (#[trigger] built[k]).spec_id() == axis_ids@[j];
                assert(0 <= k < r.spec_axes().len() && r.spec_axes()[k].spec_id()
                    == axis_ids@[j]);
            }
        }
        r
    }

    /// The builder for one axis.  Asking for an axis the group does not
    /// hold is a caller error and is left out of the contract.
    pub fn get_axis(&self, id: &AxisID) -> (r: &Axis)
        requires
            self.spec_has_axis(*id),
        ensures
            r.spec_id() == *id,
    {
        let n = self.axes.len();
        let mut i: usize = 0;
        while i < n
            invariant
                0 <= i <= n,
                n == self.spec_axes().len(),
                forall|k: int| 0 <= k < i ==> (#[trigger] self.spec_axes()[k]).spec_id() != *id,
            decreases n - i,
        {
            if self.axes[i].id() == *id {
                return &self.axes[i];
            }
            i = i + 1;
        }
        proof {
            assert(false);
        }
        &self.axes[0]
    }

    /// Build one request per axis with `f` and submit them as one batch,
    /// blocking until every reply arrives.  Each request must address
    /// the axis it was built from; the replies come back in ascending
    /// axis order, reply `i` answering — value for value — a request `f`
    /// built for axis `i`, however the bus replied.
    pub fn all_axes<F: Fn(&Axis) -> CANRequest>(&self, f: F) -> (r: Vec<ODriveResponse>)
        requires
            self.wf(),
            forall|ax: &Axis| #[trigger] call_requires(f, (ax,)),
            forall|ax: &Axis, q: CANRequest| #[trigger] call_ensures(f, (ax,), q) ==> q.axis
                == ax.spec_id() as u32,
        ensures
            r@.len() == self.spec_axes().len(),
            forall|i: int|
                0 <= i < r@.len() ==> spec_response_request(#[trigger] r@[i]).axis
                    == self.spec_axes()[i].spec_id() as u32,
            forall|i: int|
                0 <= i < r@.len() ==> #[trigger] built_by(
                    f,
                    self.spec_axes()[i],
                    spec_response_request(r@[i]),
                ),
    {
        let n = self.axes.len();
        let mut requests: Vec<CANRequest> = Vec::new();
        let mut i: usize = 0;
        while i < n
            invariant
                0 <= i <= n,
                n == self.spec_axes().len(),
                self.wf(),
                forall|ax: &Axis| #[trigger] call_requires(f, (ax,)),
                forall|ax: &Axis, q: CANRequest| #[trigger] call_ensures(f, (ax,), q) ==> q.axis
                    == ax.spec_id() as u32,
                requests@.len() == i,
                forall|k: int|
                    0 <= k < i ==> (#[trigger] requests@[k]).axis == self.spec_axes()[
                        k
                    ].spec_id() as u32,
                forall|k: int|
                    0 <= k < i ==> #[trigger] built_by(f, self.spec_axes()[k], requests@[k]),
            decreases n - i,
        {
            let ax = self.axes[i];
            let q = f(&ax);
            let ghost pre_reqs = requests@;
            requests.push(q);
            proof {
                assert forall|k: int| 0 <= k < i + 1 implies #[trigger] built_by(
                    f,
                    self.spec_axes()[k],
                    requests@[k],
                ) by {
                    if k == i {
                        assert(requests@[k] == q);
                        assert(*(&ax) == self.spec_axes()[k] && call_ensures(f, (&ax,), q));
                    } else {
                        assert(requests@[k] == pre_reqs[k]);
                        assert(built_by(f, self.spec_axes()[k], pre_reqs[k]));
                    }
                }
            }
            i = i + 1;
        }
        proof {
            assert(no_duplicate_keys(requests@)) by {
                assert(forall|p: int, q: int|
                    0 <= p < q < requests@.len() ==> (#[trigger] requests@[p]).axis != (
                    #[trigger] requests@[q]).axis);
            }
        }
        let ghost built = requests@;
        let r = self.can.request_many(requests);
        proof {
            assert forall|i: int| 0 <= i < r@.len() implies #[trigger] built_by(
                f,
                self.spec_axes()[i],
                spec_response_request(r@[i]),
            ) by {
                assert(spec_response_request(r@[i]) == built[i]);
                assert(built_by(f, self.spec_axes()[i], built[i]));
            }
        }
        r
    }

    /// Build one request for the chosen axis with `f`, submit it, and
    /// block until its correlated response, or a terminal error,
    /// arrives.
    pub fn axis<F: FnOnce(&Axis) -> CANRequest>(&self, axis_id: &AxisID, f: F) -> ODriveResponse
        requires
            self.spec_has_axis(*axis_id),
            forall|ax: &Axis| #[trigger] call_requires(f, (ax,)),
    {
        let ax = self.get_axis(axis_id);
        let q = f(ax);
        self.can.request(q)
    }
}

} // verus!
