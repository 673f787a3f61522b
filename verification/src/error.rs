use vstd::prelude::*;

verus! {

/// The single failure of the conversion layer: a native code that matches
/// no defined variant of the family it was offered to. It is always
/// recoverable; the caller decides what an unrecognized code means.
#[derive(Clone, Copy, Debug, PartialEq, Eq, Structural)]
pub enum ConversionError {
    Unrecognized,
}

} // verus!
