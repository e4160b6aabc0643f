use vstd::prelude::*;
use crate::device::Device;

verus! {

/// An ordered queue of asynchronous operations bound to one device.
///
/// Every enqueued operation receives a ticket, drawn from a counter that only
/// grows, so tickets order operations exactly as they were enqueued. An
/// operation's effects become observable to the host once the stream's
/// completion counter has reached its ticket; `synchronize` is the one
/// operation that advances completion, and it drains the whole queue. Streams
/// created on a device carry distinct non-zero identities; identity 0 is the
/// distinguished default stream, a sentinel that is never owned and never
/// destroyed.
pub struct Stream {
    device: u32,
    id: u64,
    issued: u64,
    completed: u64,
}

impl Stream {
    /// The index of the device this stream is bound to.
    pub closed spec fn device(self) -> u32 {
        self.device
    }

    /// The stream's identity on its device; 0 is the default stream.
    pub closed spec fn id(self) -> u64 {
        self.id
    }

    /// The ticket of the last operation enqueued; 0 before any was.
    pub closed spec fn issued(self) -> u64 {
        self.issued
    }

    /// The highest ticket whose operation has completed; 0 before any has.
    pub closed spec fn completed(self) -> u64 {
        self.completed
    }

    /// Whether this handle is the distinguished default stream.
    pub open spec fn is_default(self) -> bool {
        self.id() == 0
    }

    /// Well-formedness: completion never runs ahead of enqueueing.
    pub open spec fn wf(self) -> bool {
        self.completed() <= self.issued()
    }

    /// Whether ticket `t` was handed out on this stream and its operation has
    /// completed, so that its effects are observable to the host.
    pub open spec fn is_complete(self, t: u64) -> bool {
        1 <= t <= self.completed()
    }

    /// Create a fresh stream on `device`, with a new non-zero identity and an
    /// empty queue.
    pub fn new(device: &mut Device) -> (r: Stream)
        requires
            old(device).wf(),
            old(device).next_stream_id() < u64::MAX,
        ensures
            final(device).wf(),
            final(device).index() == old(device).index(),
            final(device).total_mem() == old(device).total_mem(),
            final(device).used_mem() == old(device).used_mem(),
            final(device).next_addr() == old(device).next_addr(),
            final(device).next_stream_id() == old(device).next_stream_id() + 1,
            r.wf(),
            r.device() == old(device).index(),
            r.id() == old(device).next_stream_id(),
            !r.is_default(),
            r.issued() == 0,
            r.completed() == 0,
    {
        let id = device.fresh_stream_id();
        Stream { device: device.device_index(), id, issued: 0, completed: 0 }
    }

    /// A handle on the default stream of `device`: the sentinel queue that
    /// exists without ever having been created, and that `destroy` refuses.
    pub fn default_stream(device: &Device) -> (r: Stream)
        ensures
            r.wf(),
            r.device() == device.index(),
            r.is_default(),
            r.issued() == 0,
            r.completed() == 0,
    {
        Stream { device: device.device_index(), id: 0, issued: 0, completed: 0 }
    }

    /// The index of the device this stream is bound to.
    pub fn device_index(&self) -> (r: u32)
        ensures
            r == self.device(),
    {
        self.device
    }

    /// The stream's identity value.
    pub fn id_value(&self) -> (r: u64)
        ensures
            r == self.id(),
    {
        self.id
    }

    /// Whether this handle is the default stream.
    pub fn is_default_stream(&self) -> (r: bool)
        ensures
            r == self.is_default(),
    {
        self.id == 0
    }

    /// The ticket of the last operation enqueued on this stream.
    pub fn issued_count(&self) -> (r: u64)
        ensures
            r == self.issued(),
    {
        self.issued
    }

    /// The highest ticket whose operation has completed.
    pub fn completed_count(&self) -> (r: u64)
        ensures
            r == self.completed(),
    {
        self.completed
    }

    /// Whether operations are outstanding: enqueued but not yet complete.
    pub fn has_outstanding(&self) -> (r: bool)
        ensures
            r == (self.issued() != self.completed()),
    {
        self.issued != self.completed
    }

    /// Block until every operation previously enqueued on this stream has
    /// completed. This is the sole point at which asynchronous results become
    /// observable: afterwards every ticket handed out so far is complete.
    pub fn synchronize(&mut self)
        requires
            old(self).wf(),
        ensures
            final(self).wf(),
            final(self).device() == old(self).device(),
            final(self).id() == old(self).id(),
            final(self).issued() == old(self).issued(),
            final(self).completed() == old(self).issued(),
            forall|t: u64| 1 <= t <= old(self).issued() ==> final(self).is_complete(t),
    {
        self.completed = self.issued;
    }

    /// Tear the stream down. Destroying a stream while operations are
    /// outstanding is a usage violation, disallowed by construction: the
    /// precondition demands a drained queue, so a `synchronize` must come
    /// first. The default stream is never destroyed.
    pub fn destroy(self)
        requires
            self.wf(),
            self.completed() == self.issued(),
            !self.is_default(),
    {
    }

    /// Enqueue one operation and hand back its ticket. Tickets are issued in
    /// strictly increasing order, which is what makes the queue first-in
    /// first-out: an operation enqueued earlier holds a smaller ticket and is
    /// never observed later than one enqueued after it.
    pub(crate) fn enqueue(&mut self) -> (t: u64)
        requires
            old(self).wf(),
            old(self).issued() < u64::MAX,
        ensures
            final(self).wf(),
            final(self).device() == old(self).device(),
            final(self).id() == old(self).id(),
            final(self).completed() == old(self).completed(),
            final(self).issued() == old(self).issued() + 1,
            t == old(self).issued() + 1,
            t >= 1,
            !final(self).is_complete(t),
    {
        self.issued = self.issued + 1;
        self.issued
    }
}

/// Law: first-in-first-out visibility. On one stream, an operation enqueued
/// earlier holds a smaller ticket, so whenever a later operation's effects are
/// observable, the earlier operation's effects are observable as well — the
/// earlier effects are visible no later than the later ones.
pub proof fn lemma_fifo_visibility(s: Stream, t1: u64, t2: u64)
    requires
        1 <= t1 <= t2,
        s.is_complete(t2),
    ensures
        s.is_complete(t1),
{
}

/// Law: a synchronized stream hides nothing. Once completion has caught up
/// with issuance, every ticket the stream ever handed out is complete, so
/// every enqueued effect is observable.
pub proof fn lemma_sync_completes_all(s: Stream, t: u64)
    requires
        s.completed() == s.issued(),
        1 <= t <= s.issued(),
    ensures
        s.is_complete(t),
{
}

} // verus!
