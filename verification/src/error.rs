use vstd::prelude::*;
use vstd::string::*;

use crate::span::Span;

verus! {

/// Why a derivation was refused.
///
/// Every error is fatal for the declaration it is about, and carries the
/// location that the diagnostic points at.
#[derive(Clone, Copy, Debug, PartialEq, Eq, Structural)]
pub enum GenerationError {
    /// The declaration is not a struct; `span` covers the whole declaration.
    UnsupportedDeclarationKind { span: Span },
    /// A field's type is neither a path, nor an array of known length, nor a
    /// tuple, once arrays and tuples are unwrapped; `span` covers the type
    /// expression that was refused.
    UnsupportedFieldType { span: Span },
}

impl GenerationError {
    /// The location that the diagnostic points at.
    pub open spec fn spec_span(&self) -> Span {
        match *self {
            GenerationError::UnsupportedDeclarationKind { span } => span,
            GenerationError::UnsupportedFieldType { span } => span,
        }
    }

    /// The text of the diagnostic.
    pub open spec fn spec_message(&self) -> Seq<char> {
        match *self {
            GenerationError::UnsupportedDeclarationKind { .. } => {
                "this macro can only be used on structs"@
            },
            GenerationError::UnsupportedFieldType { .. } => "Unsupported type for `Constdef`"@,
        }
    }

    /// The location that the diagnostic points at.
    #[verifier::when_used_as_spec(spec_span)]
    pub fn span(&self) -> (span: Span)
        ensures
            span == self.spec_span(),
    {
        match *self {
            GenerationError::UnsupportedDeclarationKind { span } => span,
            GenerationError::UnsupportedFieldType { span } => span,
        }
    }

    /// The text of the diagnostic.
    pub fn message(&self) -> (text: String)
        ensures
            text@ == self.spec_message(),
    {
        match *self {
            GenerationError::UnsupportedDeclarationKind { .. } => {
                String::from_str("this macro can only be used on structs")
            },
            GenerationError::UnsupportedFieldType { .. } => {
                String::from_str("Unsupported type for `Constdef`")
            },
        }
    }
}

} // verus!
