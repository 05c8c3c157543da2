//! The markers by which the type of a builder records which mandatory
//! parameters it has received.

use vstd::prelude::*;

verus! {

/// A marker that says whether a mandatory parameter has been supplied.
pub trait ToAssign {
    /// Whether the parameter that the marker stands for has been supplied.
    spec fn assigned() -> bool;
}

/// The parameter has been supplied.
#[derive(Clone, Copy, Debug, PartialEq, Eq)]
pub struct Yes;

/// The parameter has not been supplied.
#[derive(Clone, Copy, Debug, PartialEq, Eq)]
pub struct No;

impl ToAssign for Yes {
    open spec fn assigned() -> bool {
        true
    }
}

impl ToAssign for No {
    open spec fn assigned() -> bool {
        false
    }
}

} // verus!
