use vstd::prelude::*;

verus! {

/// What can go wrong when a view is read or compared.
#[derive(Debug, Clone, Copy, PartialEq, Eq, Structural)]
pub enum ViewError {
    /// A position outside `[0, len)` was asked for; the offending index is kept.
    IndexOutOfRange(isize),
    /// The element of the other sequence at this position could not be read as
    /// an element of the view.
    TypeMismatch(usize),
    /// An ordering comparison was asked for: views are only compared for equality.
    NotImplemented,
}

/// The six rich comparison operators a caller may apply to a view.
#[derive(Debug, Clone, Copy, PartialEq, Eq, Structural)]
pub enum CompareOp {
    Lt,
    Le,
    Eq,
    Ne,
    Gt,
    Ge,
}

} // verus!
