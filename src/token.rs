use vstd::prelude::*;

verus! {

/// A caller-chosen identifier that ties a registration to its notifications.
#[derive(Clone, Copy, Debug, PartialEq, Eq, Structural, Hash)]
pub struct Token(pub usize);

} // verus!
