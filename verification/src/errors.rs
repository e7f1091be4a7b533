use vstd::prelude::*;
use crate::kind::OptionKind;

verus! {

/// An error raised while declaring a command, before anything is published
/// or registered. A parameter `index` counts the published options from 0,
/// after the two leading context declarations.
#[derive(Clone, Copy, PartialEq, Eq, Structural, Debug)]
pub enum DeclarationError {
    /// The command name is empty once trimmed.
    EmptyCommandName,
    /// The command description's trimmed length lies outside 1..=100.
    BadDescriptionLength { length: usize },
    /// The declaration at `index` carries no determinable name.
    UnnamedParameter { index: usize },
    /// The declaration at `index` unwraps to a type outside the supported set.
    UnsupportedParameterType { index: usize },
    /// The option name at `index` has a trimmed length outside 1..=32.
    BadOptionName { index: usize, length: usize },
    /// The option description at `index` has a trimmed length outside 1..=100.
    BadOptionDescription { index: usize, length: usize },
}

/// A failure to bind a required parameter to its positional payload slot.
/// Binding aborts on the first such failure and the handler does not run.
#[derive(Clone, Copy, PartialEq, Eq, Structural, Debug)]
pub enum BindError {
    /// The required parameter at `index` has no value at its position:
    /// either the payload is too short or the slot carries no value.
    MissingRequired { index: usize, expected: OptionKind },
    /// The value at `index` carries a wire kind other than the declared one.
    KindMismatch { index: usize, expected: OptionKind, found: OptionKind },
}

} // verus!
