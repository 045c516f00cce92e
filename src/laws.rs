use crate::finalizable::Finalizable;
use vstd::prelude::*;

verus! {

/// Building a value from a payload and a flag, then reading it back, gives
/// that payload, and the value is finalized exactly when the flag says so.
pub proof fn new_then_get<T>(x: T, b: bool)
    ensures
        Finalizable::spec_new(x, b).value() == x,
        (Finalizable::spec_new(x, b) is Finalized) == b,
{
}

/// Finalizing twice is the same as finalizing once.
pub proof fn finalize_idempotent<T>(v: Finalizable<T>)
    ensures
        v.spec_finalize().spec_finalize() == v.spec_finalize(),
{
}

/// Setting a new payload leaves a finalized value as it is,
/// and replaces the payload of a working value, which stays working.
pub proof fn set_only_changes_working<T>(x: T, v: T)
    ensures
        Finalizable::Finalized(x).spec_set(v) == Finalizable::Finalized(x),
        Finalizable::Working(x).spec_set(v) == Finalizable::Working(v),
{
}

/// No operation leads from a finalized value back to a working one:
/// finalizing and setting keep a finalized value finalized.
pub proof fn finalized_stays_finalized<T>(f: Finalizable<T>, v: T)
    requires
        f is Finalized,
    ensures
        f.spec_finalize() == f,
        f.spec_set(v) == f,
{
}

} // verus!
