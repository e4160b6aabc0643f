use vstd::prelude::*;
use crate::error::DeviceError;

verus! {

/// First address the allocator hands out. Keeping the base strictly positive
/// means no allocation can ever collide with the null sentinel.
pub const DEVICE_ADDR_BASE: u64 = 4096;

/// A handle on one physical compute device: its identity, its memory
/// accounting, and the two counters from which fresh device addresses and
/// fresh stream identities are drawn.
///
/// Device state is process-wide in the real driver; here it is an explicit
/// value with explicit initialization, so that tests can stand up a device of
/// any size and every query is a function of tracked state. Addresses grow
/// monotonically and are never reused, so two allocations that are both live
/// at some point never overlap.
pub struct Device {
    index: u32,
    total: u64,
    used: u64,
    next_addr: u64,
    next_stream: u64,
}

impl Device {
    /// The device's index among the devices of the process.
    pub closed spec fn index(self) -> u32 {
        self.index
    }

    /// Total device memory, in bytes.
    pub closed spec fn total_mem(self) -> u64 {
        self.total
    }

    /// Bytes currently allocated and not yet released.
    pub closed spec fn used_mem(self) -> u64 {
        self.used
    }

    /// The address the next successful allocation will receive.
    pub closed spec fn next_addr(self) -> u64 {
        self.next_addr
    }

    /// The identity the next stream created on this device will receive;
    /// identity 0 is reserved for the default stream.
    pub closed spec fn next_stream_id(self) -> u64 {
        self.next_stream
    }

    /// Free device memory, in bytes.
    pub open spec fn free_mem(self) -> int {
        self.total_mem() - self.used_mem()
    }

    /// Well-formedness: accounting never claims more in use than exists, the
    /// allocator never reaches down to the null address, and stream identity 0
    /// stays reserved for the default stream.
    pub open spec fn wf(self) -> bool {
        &&& self.used_mem() <= self.total_mem()
        &&& self.next_addr() >= DEVICE_ADDR_BASE
        &&& self.next_stream_id() >= 1
    }

    /// Whether a reservation of `bytes` bytes can succeed: enough free memory,
    /// and enough remaining address space.
    pub open spec fn can_reserve(self, bytes: int) -> bool {
        &&& self.used_mem() + bytes <= self.total_mem()
        &&& self.next_addr() + bytes <= u64::MAX
    }

    /// Bring up a device of `total` bytes of memory, all of it free.
    pub fn new(index: u32, total: u64) -> (r: Device)
        ensures
            r.wf(),
            r.index() == index,
            r.total_mem() == total,
            r.used_mem() == 0,
            r.next_addr() == DEVICE_ADDR_BASE,
            r.next_stream_id() == 1,
    {
        Device { index, total, used: 0, next_addr: DEVICE_ADDR_BASE, next_stream: 1 }
    }

    /// The device's index.
    pub fn device_index(&self) -> (r: u32)
        ensures
            r == self.index(),
    {
        self.index
    }

    /// Snapshot of the memory counters, as `(free, total)` in bytes. The
    /// counters are read-only here, so concurrent queries are always safe.
    pub fn memory_info(&self) -> (r: (u64, u64))
        requires
            self.wf(),
        ensures
            r.0 == self.free_mem(),
            r.1 == self.total_mem(),
    {
        (self.total - self.used, self.total)
    }

    /// Reserve `bytes` bytes of device memory and hand out their base address.
    /// Succeeds exactly when the reservation fits in free memory and in the
    /// remaining address space; on failure the device is left untouched.
    pub(crate) fn reserve(&mut self, bytes: u64) -> (r: Result<u64, DeviceError>)
        requires
            old(self).wf(),
        ensures
            final(self).wf(),
            final(self).index() == old(self).index(),
            final(self).total_mem() == old(self).total_mem(),
            final(self).next_stream_id() == old(self).next_stream_id(),
            r is Ok <==> old(self).can_reserve(bytes as int),
            r matches Ok(addr) ==> addr == old(self).next_addr() && addr != 0,
            r is Ok ==> final(self).used_mem() == old(self).used_mem() + bytes,
            r is Ok ==> final(self).next_addr() == old(self).next_addr() + bytes,
            r is Err ==> *final(self) == *old(self) && r == Err::<u64, DeviceError>(
                DeviceError::OutOfMemory,
            ),
    {
        if bytes <= self.total - self.used && bytes <= u64::MAX - self.next_addr {
            let addr = self.next_addr;
            self.used = self.used + bytes;
            self.next_addr = self.next_addr + bytes;
            Ok(addr)
        } else {
            Err(DeviceError::OutOfMemory)
        }
    }

    /// Return `bytes` bytes to the free pool. The count saturates at zero
    /// rather than wrapping, so accounting can never claim negative use.
    pub(crate) fn release(&mut self, bytes: u64)
        requires
            old(self).wf(),
        ensures
            final(self).wf(),
            final(self).index() == old(self).index(),
            final(self).total_mem() == old(self).total_mem(),
            final(self).next_addr() == old(self).next_addr(),
            final(self).next_stream_id() == old(self).next_stream_id(),
            final(self).used_mem() == sat_sub64(old(self).used_mem(), bytes),
    {
        if self.used >= bytes {
            self.used = self.used - bytes;
        } else {
            self.used = 0;
        }
    }

    /// Draw a fresh, non-zero stream identity.
    pub(crate) fn fresh_stream_id(&mut self) -> (r: u64)
        requires
            old(self).wf(),
            old(self).next_stream_id() < u64::MAX,
        ensures
            final(self).wf(),
            final(self).index() == old(self).index(),
            final(self).total_mem() == old(self).total_mem(),
            final(self).used_mem() == old(self).used_mem(),
            final(self).next_addr() == old(self).next_addr(),
            final(self).next_stream_id() == old(self).next_stream_id() + 1,
            r == old(self).next_stream_id(),
            r != 0,
    {
        let id = self.next_stream;
        self.next_stream = self.next_stream + 1;
        id
    }
}

/// Subtraction on byte counts that stops at zero instead of wrapping.
pub open spec fn sat_sub64(a: u64, b: u64) -> u64 {
    if a >= b {
        (a - b) as u64
    } else {
        0
    }
}

/// Whether byte address `x` falls inside the allocation of `bytes` bytes based
/// at `base`.
pub open spec fn in_alloc(base: u64, bytes: u64, x: int) -> bool {
    base <= x < base + bytes
}

/// Law: allocations hand out disjoint address ranges. The allocator is
/// monotone, so an allocation made after another starts at or past the older
/// one's end, and no byte address belongs to both.
pub proof fn lemma_allocations_disjoint(a1: u64, n1: u64, a2: u64, n2: u64)
    requires
        a1 + n1 <= a2,
    ensures
        forall|x: int| in_alloc(a1, n1, x) ==> !in_alloc(a2, n2, x),
{
}

} // verus!
