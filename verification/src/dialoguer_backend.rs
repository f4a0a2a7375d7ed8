//! Wizards that prompt for one value after the other on a terminal.

use vstd::prelude::*;

verus! {

/// A type that can be asked for on a terminal, prompt by prompt.
pub trait DialoguerWizard: Sized {
    fn wizard_dialoguer() -> Self;
}

} // verus!
