//! The mistakes in a scope that stop the generator.

use vstd::prelude::*;
use vstd::string::*;

verus! {

/// Why nothing was generated for a scope. Each of these is a mistake that
/// the author of the scope mends; the generator then emits nothing at all.
#[derive(Clone, Copy, Debug, PartialEq, Eq, Structural)]
pub enum GenerationError {
    /// An action takes `self`. The numbers say which declaration of the
    /// scope, and which of its parameters.
    SelfParameterError { declaration: usize, parameter: usize },
    /// A parameter with the form marker binds its value by a pattern that is
    /// no simple name. The numbers say which declaration of the scope, and
    /// which of its parameters.
    InvalidFormParameterPattern { declaration: usize, parameter: usize },
    /// The module is declared without a body, so it has no declarations to
    /// read.
    ModuleWithoutContent,
}

impl GenerationError {
    /// The text of the diagnostic for this error.
    pub open spec fn spec_message(self) -> Seq<char> {
        match self {
            GenerationError::SelfParameterError { .. } => "\"self\" is not allowed"@,
            GenerationError::InvalidFormParameterPattern { .. } =>
                "parameters tagged with #[form] must be identifiers"@,
            GenerationError::ModuleWithoutContent => "The module must have content"@,
        }
    }

    /// The text of the diagnostic for this error.
    pub fn message(&self) -> (text: String)
        ensures
            text@ == self.spec_message(),
    {
        match self {
            GenerationError::SelfParameterError { .. } => String::from_str(
                "\"self\" is not allowed",
            ),
            GenerationError::InvalidFormParameterPattern { .. } => String::from_str(
                "parameters tagged with #[form] must be identifiers",
            ),
            GenerationError::ModuleWithoutContent => String::from_str(
                "The module must have content",
            ),
        }
    }
}

} // verus!
