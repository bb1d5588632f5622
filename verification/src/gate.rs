use vstd::prelude::*;
use crate::errors::Diagnostic;

verus! {

/// What one period's look at the shared run flag found. An external
/// controller writes the flag asynchronously; the bridge consults it exactly
/// once per period.
#[derive(Clone, Copy, Debug, PartialEq, Eq, Structural)]
pub enum GateRead {
    /// The lock was healthy and the flag held this value.
    Value(bool),
    /// The lock was poisoned: a writer failed mid-update.
    Poisoned,
}

/// Resolve what one period's look at the run flag found.
///
/// A healthy lock yields the flag's value. A poisoned lock degrades the flag
/// to closed and raises the `LockPoisoned` diagnostic instead of propagating
/// a fault into the realtime thread.
pub fn resolve_gate(read: GateRead) -> (out: (bool, Option<Diagnostic>))
    ensures
        read matches GateRead::Value(v) ==> out.0 == v && out.1 is None,
        read is Poisoned ==> out.0 == false && out.1 == Some(Diagnostic::LockPoisoned),
{
    match read {
        GateRead::Value(v) => (v, None),
        GateRead::Poisoned => (false, Some(Diagnostic::LockPoisoned)),
    }
}

} // verus!
