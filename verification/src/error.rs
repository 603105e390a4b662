//! The error of a prompt builder.

use vstd::prelude::*;

verus! {

/// Why a builder could not make a prompt.
///
/// The single-turn templates of this crate make a prompt of every history and
/// never return it; it is there for builders that ask more of their input.
#[derive(Clone, Copy, Debug, PartialEq, Eq, Structural)]
pub enum PromptError {
    /// The history holds nothing that the builder can make a prompt of.
    NoPrompt,
}

} // verus!
