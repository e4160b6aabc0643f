use vstd::prelude::*;
use crate::stream::Stream;

verus! {

/// What an execution context is scoped to: the process-wide default stream,
/// or one explicit stream, named by device index and stream identity.
#[derive(Clone, Copy, Debug)]
pub enum StreamBinding {
    /// The default stream — the sentinel queue that driver conventions denote
    /// by a null handle.
    NullStream,
    /// The stream with identity `id` on the device with index `device`.
    Bound { device: u32, id: u64 },
}

/// A processing context bound to one stream, scoping a sequence of
/// stream-ordered calls.
///
/// The binding is by value — device index and stream identity — not by
/// ownership or borrow, so a context is short-lived, carries no resources,
/// and its destruction never affects the stream it names.
pub struct ExecutionContext {
    binding: StreamBinding,
}

impl ExecutionContext {
    /// The stream this context is scoped to.
    pub closed spec fn binding(self) -> StreamBinding {
        self.binding
    }

    /// Whether this context is scoped to the default stream.
    pub open spec fn is_null_stream(self) -> bool {
        self.binding() is NullStream
    }

    /// Whether this context is scoped to stream `s`.
    pub open spec fn binds(self, s: Stream) -> bool {
        self.binding() matches StreamBinding::Bound { device, id } && device == s.device() && id
            == s.id()
    }

    /// A context scoped to the default stream.
    pub fn from_null_stream() -> (r: ExecutionContext)
        ensures
            r.is_null_stream(),
    {
        ExecutionContext { binding: StreamBinding::NullStream }
    }

    /// A context scoped to `stream`. Only the stream's identity is taken, so
    /// the context neither owns nor borrows the stream.
    pub fn from_stream(stream: &Stream) -> (r: ExecutionContext)
        ensures
            r.binds(*stream),
            !r.is_null_stream(),
    {
        ExecutionContext {
            binding: StreamBinding::Bound { device: stream.device_index(), id: stream.id_value() },
        }
    }

    /// Whether this context is scoped to the default stream.
    pub fn uses_null_stream(&self) -> (r: bool)
        ensures
            r == self.is_null_stream(),
    {
        match self.binding {
            StreamBinding::NullStream => true,
            StreamBinding::Bound { .. } => false,
        }
    }

    /// The identity of the bound stream, or `None` for the default stream.
    pub fn bound_stream_id(&self) -> (r: Option<u64>)
        ensures
            self.binding() matches StreamBinding::Bound { id, .. } ==> r == Some(id),
            self.is_null_stream() ==> r is None,
    {
        match self.binding {
            StreamBinding::NullStream => None,
            StreamBinding::Bound { id, .. } => Some(id),
        }
    }

    /// The index of the bound stream's device, or `None` for the default
    /// stream.
    pub fn bound_device_index(&self) -> (r: Option<u32>)
        ensures
            self.binding() matches StreamBinding::Bound { device, .. } ==> r == Some(device),
            self.is_null_stream() ==> r is None,
    {
        match self.binding {
            StreamBinding::NullStream => None,
            StreamBinding::Bound { device, .. } => Some(device),
        }
    }
}

} // verus!
