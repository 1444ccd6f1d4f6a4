//! The error screen: shows the description of the error that stopped the
//! previous screen. It never moves on.
use vstd::prelude::*;

verus! {

pub struct ErrorState {
    pub text: String,
}

impl ErrorState {
    pub fn new(text: String) -> (r: ErrorState)
        ensures
            r.text == text,
    {
        ErrorState { text }
    }
}

} // verus!
