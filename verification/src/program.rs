//! The program resource kind: only the plain state the registry tracks.

use vstd::prelude::*;

verus! {

use crate::object_pool::Resource;

/// A linked-program object's registry state.
#[derive(Clone, Copy, Debug, PartialEq, Eq, Structural)]
pub struct Program {
    pub deletion_mark: bool,
    pub validate_state: bool,
    pub update_descriptor_sets: bool,
}

impl Resource for Program {
    open spec fn fresh_spec() -> Program {
        (Program { deletion_mark: false, validate_state: false, update_descriptor_sets: false })
    }

    fn fresh() -> (object: Program) {
        Program { deletion_mark: false, validate_state: false, update_descriptor_sets: false }
    }

    open spec fn cleaned(self) -> Program {
        self
    }

    fn cleanup(&mut self) {
    }
}

impl Default for Program {
    fn default() -> (object: Program)
        ensures
            object == Program::fresh_spec(),
    {
        Program::fresh()
    }
}

} // verus!
