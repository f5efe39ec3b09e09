//! The pointer-formatting helper used by derived `Display` impls: a field
//! written as `{field:p}` is wrapped in `Var`, and `Var`'s `Pointer` impl
//! renders the field through the field's own `Pointer` impl.

use vstd::prelude::*;

verus! {

/// The formatter that `Pointer::fmt` writes to; its state is opaque here.
#[verifier::external_type_specification]
#[verifier::external_body]
pub struct ExFormatter<'a>(core::fmt::Formatter<'a>);

/// The error that a formatter's sink reports; opaque here.
#[verifier::external_type_specification]
#[verifier::external_body]
pub struct ExFmtError(core::fmt::Error);

/// A borrowed value that is to be formatted through its own pointer impl.
pub struct Var<'a, T: ?Sized>(pub &'a T);

impl<'a, T: ?Sized> Var<'a, T> {
    /// The value that pointer formatting of this `Var` renders. The contract
    /// states that it equals the wrapped reference as a value; that it is the
    /// wrapped reference itself follows from the signature, since for a
    /// generic `T` no other `&'a T` is in scope.
    pub fn pointee(&self) -> (r: &'a T)
        ensures
            r == self.0,
    {
        self.0
    }
}

impl<'a, T: core::fmt::Pointer + ?Sized> core::fmt::Pointer for Var<'a, T> {
    /// Calls `core::fmt::Pointer::fmt` of `T` on the wrapped reference. Nothing
    /// is claimed of the result: what is written, and whether the formatter's
    /// sink fails, depend on `T`'s impl, the formatter's options and its sink.
    #[verifier::external_body]
    fn fmt(&self, formatter: &mut core::fmt::Formatter<'_>) -> core::fmt::Result {
        core::fmt::Pointer::fmt(self.0, formatter)
    }
}

} // verus!
