//! The one recoverable error of the library: an input word holding a
//! character that no symbol of the machine displays.

use vstd::prelude::*;

verus! {

/// A typed failure carrying a human-readable message.
#[derive(Debug)]
pub struct TmError {
    pub message: String,
}

impl View for TmError {
    type V = Seq<char>;

    open spec fn view(&self) -> Seq<char> {
        self.message@
    }
}

impl TmError {
    /// Wrap a message as an error.
    pub fn new(message: String) -> (r: Self)
        ensures
            r@ == message@,
            r.message@ == message@,
    {
        TmError { message }
    }
}

} // verus!
