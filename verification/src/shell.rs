//! The application-state struct that a UI shell owns: one pet.

use vstd::prelude::*;

use crate::Pet;
use crate::default_model;

verus! {

/// The whole state a running session carries: the single pet being cared for.
pub struct PetApp {
    pub pet: Pet,
}

impl Default for PetApp {
    /// A fresh session starts with the default pet.
    fn default() -> (r: PetApp)
        ensures
            r.pet@ == default_model(),
    {
        PetApp { pet: Pet::default() }
    }
}

} // verus!
