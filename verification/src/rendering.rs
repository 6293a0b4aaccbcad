//! Owned GPU buffer handles.
//!
//! A handle is an opaque integer the driver allocated; it is owned by
//! exactly one wrapper and must be released exactly once. Handle 0 is
//! the driver's null name, so a wrapper whose handle is 0 is released.
//! Releasing hands the handle back for the shell to destroy and zeroes
//! the field, so a second release is a contract violation (a double
//! free), ruled out by `requires`.

use vstd::prelude::*;

verus! {

/// An owned vertex-array handle.
#[derive(Clone, Copy, Debug, PartialEq, Eq, Structural)]
pub struct VAO {
    pub id: u32,
}

impl VAO {
    /// Wraps a vertex-array handle the driver allocated.
    pub fn new(id: u32) -> (v: VAO)
        requires
            id != 0,
        ensures
            v.id == id,
    {
        VAO { id }
    }

    /// The wrapper still owns a live handle.
    pub open spec fn live(self) -> bool {
        self.id != 0
    }

    /// Gives the handle up for destruction: returns it for the shell to
    /// delete and leaves the wrapper released.
    pub fn delete(&mut self) -> (h: u32)
        requires
            old(self).live(),
        ensures
            h == old(self).id,
            final(self).id == 0,
    {
        let h = self.id;
        self.id = 0;
        h
    }
}

/// An owned data-buffer handle.
#[derive(Clone, Copy, Debug, PartialEq, Eq, Structural)]
pub struct VBO {
    pub id: u32,
}

impl VBO {
    /// Wraps a buffer handle the driver allocated.
    pub fn new(id: u32) -> (v: VBO)
        requires
            id != 0,
        ensures
            v.id == id,
    {
        VBO { id }
    }

    /// The wrapper still owns a live handle.
    pub open spec fn live(self) -> bool {
        self.id != 0
    }

    /// Gives the handle up for destruction: returns it for the shell to
    /// delete and leaves the wrapper released.
    pub fn delete(&mut self) -> (h: u32)
        requires
            old(self).live(),
        ensures
            h == old(self).id,
            final(self).id == 0,
    {
        let h = self.id;
        self.id = 0;
        h
    }
}

} // verus!
