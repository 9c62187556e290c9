use vstd::prelude::*;

verus! {

/// A problem found in the model, described for the user.
#[derive(Clone, Debug, PartialEq, Eq)]
pub struct Issue {
    pub message: String,
}

} // verus!
