use vstd::prelude::*;

verus! {

/// The recoverable, driver-level failure class: conditions the device reports
/// back to the caller, as opposed to programming errors (use of a moved-from
/// handle, a null address through the safe path, freeing on a destroyed
/// stream), which are precondition violations and never reach a result value.
#[derive(Clone, Copy, Debug, PartialEq, Eq, Structural)]
pub enum DeviceError {
    /// The device could not satisfy an allocation: too little free memory, or
    /// no remaining room in the device address space.
    OutOfMemory,
}

impl DeviceError {
    /// The underlying numeric status code, following the driver convention
    /// that an allocation failure reports code 2.
    pub fn code(&self) -> (r: u32)
        ensures
            *self is OutOfMemory ==> r == 2,
    {
        match self {
            DeviceError::OutOfMemory => 2,
        }
    }
}

} // verus!
