use vstd::prelude::*;

verus! {

/// A unique identifier for a module, stable across successive builds of the
/// same module so that its registry slot is reused on reload.
#[derive(Copy, Clone, Debug, PartialEq, Eq, Hash, Structural)]
pub struct ModuleId(pub i32);

impl ModuleId {
    /// The raw identifier value.
    pub fn value(&self) -> (r: i32)
        ensures
            r == self.0,
    {
        self.0
    }
}

} // verus!
