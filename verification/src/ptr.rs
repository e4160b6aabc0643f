use vstd::prelude::*;

verus! {

/// A device-local address: a raw handle known to refer to memory that lives on
/// the device, not on the host. It carries no size and no allocation of its
/// own; `crate::buffer::DeviceBuffer` pairs it with a length and an owning
/// stream.
///
/// The safe constructor `from_addr` never yields a null handle; the null
/// sentinel exists only through the explicit `null` constructor, reserved for
/// the few driver conventions (such as designating the default stream) that
/// accept null. A handle is never duplicated implicitly: `take` is the one way
/// to move the address out, and it leaves the source permanently null so that
/// a teardown path and an explicit free path can never both act on the same
/// address.
pub struct DevicePtr {
    addr: u64,
}

impl DevicePtr {
    /// The raw address this handle holds; 0 is the null sentinel.
    pub closed spec fn view(self) -> u64 {
        self.addr
    }

    /// The handle `from_addr` yields for a given address.
    pub closed spec fn from_addr_spec(addr: u64) -> DevicePtr {
        DevicePtr { addr }
    }

    /// Create a handle from a device address.
    ///
    /// A null address is a programming error, not a recoverable condition, and
    /// is excluded up front: no usable handle ever comes out of a null input.
    pub fn from_addr(addr: u64) -> (r: Self)
        requires
            addr != 0,
        ensures
            r == Self::from_addr_spec(addr),
            r@ == addr,
            r@ != 0,
    {
        DevicePtr { addr }
    }

    /// Create the null sentinel handle.
    ///
    /// Operating on a null address is undefined on the device side; this
    /// constructor exists solely for sentinel uses where the driver accepts
    /// null by convention, and every operation that would dereference a handle
    /// demands a non-null one in its precondition.
    pub fn null() -> (r: Self)
        ensures
            r@ == 0,
    {
        DevicePtr { addr: 0 }
    }

    /// Whether this handle holds the null sentinel.
    pub fn is_null(&self) -> (r: bool)
        ensures
            r == (self@ == 0),
    {
        self.addr == 0
    }

    /// The readonly address value.
    pub fn as_ptr(&self) -> (r: u64)
        ensures
            r == self@,
    {
        self.addr
    }

    /// The mutable address value; the handle itself is left unchanged.
    pub fn as_mut_ptr(&mut self) -> (r: u64)
        ensures
            r == old(self)@,
            final(self)@ == old(self)@,
    {
        self.addr
    }

    /// Move the address out of this handle and leave the null sentinel behind.
    ///
    /// Intended for teardown: after `take`, the source is permanently a no-op
    /// for destruction purposes, so a destructor and an explicit free can
    /// never both release the same address. Taking from an already-null
    /// handle — in particular, calling `take` twice — is a precondition
    /// violation.
    pub fn take(&mut self) -> (r: DevicePtr)
        requires
            old(self)@ != 0,
        ensures
            r@ == old(self)@,
            final(self)@ == 0,
    {
        let addr = self.addr;
        self.addr = 0;
        DevicePtr { addr }
    }
}

/// Law: for every non-null address, the handle built by the safe constructor
/// reads back exactly that address, and is not null.
pub proof fn lemma_from_addr_reads_back(addr: u64)
    requires
        addr != 0,
    ensures
        DevicePtr::from_addr_spec(addr)@ == addr,
        DevicePtr::from_addr_spec(addr)@ != 0,
{
}

} // verus!
