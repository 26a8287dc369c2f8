use vstd::prelude::*;

verus! {

/// A handle to a source location.
///
/// The library never looks inside a location: it carries the handle from the
/// place where a declaration or a type was read to the diagnostic that
/// points back at it.
#[derive(Clone, Copy, Debug, PartialEq, Eq, Structural)]
pub struct Span {
    pub id: usize,
}

impl Span {
    /// The location with the given handle.
    pub fn new(id: usize) -> (span: Span)
        ensures
            span.id == id,
    {
        Span { id }
    }
}

} // verus!
