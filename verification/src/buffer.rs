use vstd::prelude::*;
use vstd::slice::slice_to_vec;
use crate::device::{Device, sat_sub64};
use crate::error::DeviceError;
use crate::ptr::DevicePtr;
use crate::stream::Stream;

verus! {

/// Size of one buffer element, in bytes: buffers hold 32-bit words, the width
/// of the `float32` and `int32` elements the compute kernels operate on.
pub const WORD_BYTES: u64 = 4;

/// The byte length of a buffer of `len` words.
pub open spec fn bytes_of_len(len: nat) -> int {
    WORD_BYTES * len
}

/// Fill a fresh vector with `len` zero words.
fn zero_words(len: usize) -> (r: Vec<u32>)
    ensures
        r@.len() == len,
        forall|j: int| 0 <= j < len ==> r@[j] == 0u32,
{
    let mut v: Vec<u32> = Vec::new();
    let mut i: usize = 0;
    while i < len
        invariant
            i <= len,
            v@.len() == i,
            forall|j: int| 0 <= j < i ==> v@[j] == 0u32,
        decreases len - i,
    {
        v.push(0);
        i = i + 1;
    }
    v
}

/// A host-resident memory region used as the source or target of
/// asynchronous transfers, owning its allocation.
///
/// A transfer out of device memory only appears synchronous: enqueueing it
/// returns at once, and the data is guaranteed correct no earlier than the
/// next synchronization point on the issuing stream. The buffer therefore
/// tracks whether its contents are materialized or still in flight behind a
/// ticket of some stream, and reading the contents demands materialization —
/// the host can never observe a not-yet-materialized result.
pub struct HostBuffer {
    data: Vec<u32>,
    pending: Option<(u32, u64, u64)>,
}

impl HostBuffer {
    /// The buffer's contents — once materialized; while a transfer is in
    /// flight, the contents it will hold at the next synchronization point.
    pub closed spec fn view(self) -> Seq<u32> {
        self.data@
    }

    /// The in-flight marker: the device index, stream identity and ticket of
    /// the enqueued transfer this buffer waits on, if any.
    pub closed spec fn pending_op(self) -> Option<(u32, u64, u64)> {
        self.pending
    }

    /// Whether the contents are materialized: no transfer in flight.
    pub open spec fn materialized(self) -> bool {
        self.pending_op() is None
    }

    /// Whether this buffer waits on a transfer enqueued on stream `s`.
    pub open spec fn pending_on(self, s: Stream) -> bool {
        self.pending_op() matches Some(p) && p.0 == s.device() && p.1 == s.id()
    }

    /// The ticket of the in-flight transfer; 0 when none is.
    pub open spec fn pending_ticket(self) -> u64 {
        match self.pending_op() {
            Some(p) => p.2,
            None => 0,
        }
    }

    /// Allocate a zero-filled host buffer of `len` words. Host allocation has
    /// no asynchronous phase, so the buffer is materialized from the start.
    pub fn new(len: usize) -> (r: HostBuffer)
        ensures
            r@.len() == len,
            forall|j: int| 0 <= j < len ==> r@[j] == 0u32,
            r.materialized(),
    {
        HostBuffer { data: zero_words(len), pending: None }
    }

    /// Copy host data in eagerly. The copy is synchronous, so the buffer is
    /// materialized from the start.
    pub fn from_slice(src: &[u32]) -> (r: HostBuffer)
        ensures
            r@ == src@,
            r.materialized(),
    {
        HostBuffer { data: slice_to_vec(src), pending: None }
    }

    /// The element count.
    pub fn len(&self) -> (r: usize)
        ensures
            r == self@.len(),
    {
        self.data.len()
    }

    /// Whether the contents are materialized and may be read.
    pub fn is_materialized(&self) -> (r: bool)
        ensures
            r == self.materialized(),
    {
        self.pending.is_none()
    }

    /// Read the contents. Only materialized contents are readable: a buffer
    /// still waiting on an enqueued transfer must first pass through
    /// `materialize` after its stream has synchronized.
    pub fn contents(&self) -> (r: &Vec<u32>)
        requires
            self.materialized(),
        ensures
            r@ == self@,
    {
        &self.data
    }

    /// Acknowledge that the transfer this buffer waits on has completed, and
    /// make the contents readable. The precondition demands proof of
    /// completion — the issuing stream, synchronized at least up to the
    /// transfer's ticket — so stale or half-transferred data can never be
    /// observed through this buffer.
    pub fn materialize(&mut self, stream: &Stream)
        requires
            old(self).pending_on(*stream),
            stream.is_complete(old(self).pending_ticket()),
        ensures
            final(self)@ == old(self)@,
            final(self).materialized(),
    {
        self.pending = None;
    }

    /// Enqueue an asynchronous device-to-host copy on `stream` and return the
    /// operation's ticket. The call returns immediately; this buffer's
    /// contents count as in flight until the stream has synchronized past the
    /// ticket and `materialize` has been called.
    pub fn copy_from_device(&mut self, src: &DeviceBuffer, stream: &mut Stream) -> (t: u64)
        requires
            old(self)@.len() == src@.len(),
            src.owned_by(*old(stream)),
            old(stream).wf(),
            old(stream).issued() < u64::MAX,
        ensures
            final(stream).wf(),
            final(stream).device() == old(stream).device(),
            final(stream).id() == old(stream).id(),
            final(stream).completed() == old(stream).completed(),
            final(stream).issued() == old(stream).issued() + 1,
            t == final(stream).issued(),
            final(self)@ == src@,
            final(self).pending_op() == Some((old(stream).device(), old(stream).id(), t)),
            final(self).pending_on(*final(stream)),
            final(self).pending_ticket() == t,
    {
        self.data = slice_to_vec(src.data.as_slice());
        let t = stream.enqueue();
        self.pending = Some((stream.device_index(), stream.id_value(), t));
        t
    }

    /// Enqueue an asynchronous host-to-device copy on `stream` and return the
    /// operation's ticket. The host source must be materialized — a buffer
    /// whose own contents are still in flight cannot feed a transfer.
    pub fn copy_to_device(&self, dst: &mut DeviceBuffer, stream: &mut Stream) -> (t: u64)
        requires
            self.materialized(),
            self@.len() == old(dst)@.len(),
            old(dst).owned_by(*old(stream)),
            old(stream).wf(),
            old(stream).issued() < u64::MAX,
        ensures
            final(stream).wf(),
            final(stream).device() == old(stream).device(),
            final(stream).id() == old(stream).id(),
            final(stream).completed() == old(stream).completed(),
            final(stream).issued() == old(stream).issued() + 1,
            t == final(stream).issued(),
            final(dst)@ == self@,
            final(dst).addr() == old(dst).addr(),
            final(dst).device() == old(dst).device(),
            final(dst).stream() == old(dst).stream(),
            old(dst).wf() ==> final(dst).wf(),
    {
        dst.data = slice_to_vec(self.data.as_slice());
        stream.enqueue()
    }
}

/// A device-resident memory region of known element count, owning exactly one
/// device pointer, allocated against a stream.
///
/// The buffer records the stream it was allocated on; every operation that
/// touches it is enqueued on that same stream, so all its operations are
/// totally ordered. The buffer is exclusively owned and never duplicated, and
/// freeing consumes it, so a double free is impossible by construction. Its
/// simulated contents stand for what device memory will hold once every
/// operation enqueued so far on the owning stream has completed; the host can
/// observe them only through a copy-back followed by a synchronization.
pub struct DeviceBuffer {
    ptr: DevicePtr,
    device: u32,
    stream: u64,
    data: Vec<u32>,
}

impl DeviceBuffer {
    /// The contents device memory will hold once the owning stream's queue,
    /// as enqueued so far, has drained.
    pub closed spec fn view(self) -> Seq<u32> {
        self.data@
    }

    /// The device address of the backing allocation.
    pub closed spec fn addr(self) -> u64 {
        self.ptr@
    }

    /// The index of the device the allocation lives on.
    pub closed spec fn device(self) -> u32 {
        self.device
    }

    /// The identity of the owning stream.
    pub closed spec fn stream(self) -> u64 {
        self.stream
    }

    /// Whether `s` is the owning stream: the stream all operations on this
    /// buffer must be enqueued on.
    pub open spec fn owned_by(self, s: Stream) -> bool {
        self.device() == s.device() && self.stream() == s.id()
    }

    /// Well-formedness: the backing pointer is never null, and the byte
    /// length fits the device address space.
    pub open spec fn wf(self) -> bool {
        &&& self.addr() != 0
        &&& bytes_of_len(self@.len()) <= u64::MAX
    }

    /// Allocate a device buffer of `len` words against `stream`. The contents
    /// of a fresh allocation are unspecified, as on a real device. Succeeds
    /// exactly when the device can reserve the buffer's byte length; on
    /// failure the device accounting is untouched and the typed driver error
    /// is handed to the caller to decide retry or abort.
    ///
    /// This backend makes allocation blocking, as the concurrency model
    /// permits, so no ticket is drawn.
    pub fn allocate(device: &mut Device, stream: &Stream, len: usize) -> (r: Result<
        DeviceBuffer,
        DeviceError,
    >)
        requires
            old(device).wf(),
            stream.device() == old(device).index(),
        ensures
            final(device).wf(),
            final(device).index() == old(device).index(),
            final(device).total_mem() == old(device).total_mem(),
            final(device).next_stream_id() == old(device).next_stream_id(),
            r is Ok <==> old(device).can_reserve(bytes_of_len(len as nat)),
            r matches Ok(b) ==> b.wf() && b@.len() == len && b.addr() == old(device).next_addr()
                && b.owned_by(*stream),
            r is Ok ==> final(device).used_mem() == old(device).used_mem() + bytes_of_len(
                len as nat,
            ),
            r is Ok ==> final(device).next_addr() == old(device).next_addr() + bytes_of_len(
                len as nat,
            ),
            r is Err ==> *final(device) == *old(device) && r == Err::<DeviceBuffer, DeviceError>(
                DeviceError::OutOfMemory,
            ),
    {
        if len as u64 > u64::MAX / WORD_BYTES {
            return Err(DeviceError::OutOfMemory);
        }
        let bytes: u64 = (len as u64) * WORD_BYTES;
        match device.reserve(bytes) {
            Ok(a) => Ok(
                DeviceBuffer {
                    ptr: DevicePtr::from_addr(a),
                    device: stream.device_index(),
                    stream: stream.id_value(),
                    data: zero_words(len),
                },
            ),
            Err(e) => Err(e),
        }
    }

    /// Allocate a device buffer sized like `src` and enqueue an asynchronous
    /// host-to-device copy of its contents on `stream`, returning the buffer
    /// handle immediately. The transfer completes no earlier than the next
    /// synchronization point on `stream`.
    pub fn from_slice(src: &HostBuffer, device: &mut Device, stream: &mut Stream) -> (r: Result<
        DeviceBuffer,
        DeviceError,
    >)
        requires
            src.materialized(),
            old(device).wf(),
            old(stream).wf(),
            old(stream).device() == old(device).index(),
            old(stream).issued() < u64::MAX,
        ensures
            final(device).wf(),
            final(device).index() == old(device).index(),
            final(device).total_mem() == old(device).total_mem(),
            final(device).next_stream_id() == old(device).next_stream_id(),
            final(stream).wf(),
            final(stream).device() == old(stream).device(),
            final(stream).id() == old(stream).id(),
            final(stream).completed() == old(stream).completed(),
            r is Ok <==> old(device).can_reserve(bytes_of_len(src@.len())),
            r matches Ok(b) ==> b.wf() && b@ == src@ && b.addr() == old(device).next_addr()
                && b.owned_by(*final(stream)),
            r is Ok ==> final(stream).issued() == old(stream).issued() + 1,
            r is Ok ==> final(device).used_mem() == old(device).used_mem() + bytes_of_len(
                src@.len(),
            ),
            r is Ok ==> final(device).next_addr() == old(device).next_addr() + bytes_of_len(
                src@.len(),
            ),
            r is Err ==> *final(device) == *old(device) && *final(stream) == *old(stream) && r
                == Err::<DeviceBuffer, DeviceError>(DeviceError::OutOfMemory),
    {
        let len: usize = src.data.len();
        if len as u64 > u64::MAX / WORD_BYTES {
            return Err(DeviceError::OutOfMemory);
        }
        let bytes: u64 = (len as u64) * WORD_BYTES;
        match device.reserve(bytes) {
            Ok(a) => {
                let _ticket: u64 = stream.enqueue();
                Ok(
                    DeviceBuffer {
                        ptr: DevicePtr::from_addr(a),
                        device: stream.device_index(),
                        stream: stream.id_value(),
                        data: slice_to_vec(src.data.as_slice()),
                    },
                )
            },
            Err(e) => Err(e),
        }
    }

    /// The element count.
    pub fn len(&self) -> (r: usize)
        ensures
            r == self@.len(),
    {
        self.data.len()
    }

    /// The owned device pointer, readonly.
    pub fn device_ptr(&self) -> (r: &DevicePtr)
        ensures
            r@ == self.addr(),
    {
        &self.ptr
    }

    /// The identity of the owning stream.
    pub fn stream_id(&self) -> (r: u64)
        ensures
            r == self.stream(),
    {
        self.stream
    }

    /// The index of the device the allocation lives on.
    pub fn device_index(&self) -> (r: u32)
        ensures
            r == self.device(),
    {
        self.device
    }

    /// Enqueue an asynchronous deallocation on the owning stream, ordered
    /// after every prior operation that touched this buffer, and return the
    /// buffer's bytes to the device's free pool.
    ///
    /// The buffer is consumed, so no later operation — and no second free —
    /// can reach the allocation. Freeing demands the owning stream itself:
    /// since destroying a stream also consumes it, a buffer whose stream has
    /// been destroyed can no longer be freed at all, which turns the fatal
    /// free-after-stream-teardown of the underlying driver into a usage that
    /// cannot be written.
    pub fn free(self, device: &mut Device, stream: &mut Stream)
        requires
            self.wf(),
            self.owned_by(*old(stream)),
            old(device).wf(),
            old(stream).wf(),
            old(stream).device() == old(device).index(),
            old(stream).issued() < u64::MAX,
        ensures
            final(device).wf(),
            final(device).index() == old(device).index(),
            final(device).total_mem() == old(device).total_mem(),
            final(device).next_addr() == old(device).next_addr(),
            final(device).next_stream_id() == old(device).next_stream_id(),
            final(device).used_mem() == sat_sub64(
                old(device).used_mem(),
                bytes_of_len(self@.len()) as u64,
            ),
            final(stream).wf(),
            final(stream).device() == old(stream).device(),
            final(stream).id() == old(stream).id(),
            final(stream).completed() == old(stream).completed(),
            final(stream).issued() == old(stream).issued() + 1,
    {
        let bytes: u64 = (self.data.len() as u64) * WORD_BYTES;
        let _ticket: u64 = stream.enqueue();
        device.release(bytes);
    }
}

/// Law: the host-to-device-to-host round trip is the identity. A device
/// buffer holding a host sequence, copied back into a host buffer whose
/// transfer the stream has completed, yields that sequence element for
/// element. The hypotheses are exactly what `from_slice` (or `copy_to_device`)
/// and `copy_from_device` guarantee, and what `materialize` demands.
pub proof fn lemma_round_trip(src: HostBuffer, dev: DeviceBuffer, back: HostBuffer, s: Stream)
    requires
        dev@ == src@,
        back@ == dev@,
        back.pending_on(s),
        s.is_complete(back.pending_ticket()),
    ensures
        back@ == src@,
{
}

} // verus!
