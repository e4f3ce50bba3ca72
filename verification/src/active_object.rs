//! The active binding slot: the "currently selected object" of one resource
//! kind, for one target or texture unit.
//!
//! A slot records only the bound handle (`0` while unbound). It never holds
//! a reference into pool-owned storage: users resolve the handle against the
//! pool on each use, so a slot can never dangle when the pool reallocates or
//! an instance is deleted.

use vstd::prelude::*;

verus! {

use crate::gl_sys::GLuint;

/// One active binding slot; `name == 0` means "no object / default object".
#[derive(Clone, Copy, Debug, PartialEq, Eq, Structural)]
pub struct ActiveObject {
    pub name: GLuint,
}

impl ActiveObject {
    /// The unbound slot.
    pub open spec fn unbound_spec() -> ActiveObject {
        (ActiveObject { name: 0 })
    }

    /// Build an unbound slot.
    pub fn unbound() -> (slot: ActiveObject)
        ensures
            slot == ActiveObject::unbound_spec(),
    {
        ActiveObject { name: 0 }
    }

    /// Record `name` as the currently bound handle.
    pub fn set(&mut self, name: GLuint)
        ensures
            *final(self) == (ActiveObject { name }),
    {
        self.name = name;
    }

    /// The currently bound handle; `0` while unbound.
    pub fn get(&self) -> (name: GLuint)
        ensures
            name == self.name,
    {
        self.name
    }

    /// Return the slot to the unbound state.
    pub fn clear(&mut self)
        ensures
            *final(self) == ActiveObject::unbound_spec(),
    {
        self.name = 0;
    }
}

impl Default for ActiveObject {
    fn default() -> (slot: Self)
        ensures
            slot == ActiveObject::unbound_spec(),
    {
        ActiveObject { name: 0 }
    }
}

} // verus!
