//! Handles to data types.

use vstd::prelude::*;

verus! {

/// A handle to a data-type description kept by the platform.
///
/// The handle is a plain identifier: two handles denote the same type
/// exactly when their identifiers are equal, and copying a handle shares the
/// type rather than duplicating it.
#[derive(Clone, Copy, Debug, PartialEq, Eq, Hash, Structural)]
pub struct Type {
    pub id: u64,
}

impl Type {
    /// The handle with identifier `id`.
    pub fn new(id: u64) -> (ty: Type)
        ensures
            ty.id == id,
    {
        Type { id }
    }

    /// The identifier behind this handle.
    pub fn id(&self) -> (id: u64)
        ensures
            id == self.id,
    {
        self.id
    }
}

} // verus!
