use vstd::prelude::*;

verus! {

/// The error-like capability: a value that can present itself as a
/// human-readable message. Wrapping does not require it; rendering the
/// wrapper and walking to its cause do.
pub trait ErrorMessage {
    /// The message as a mathematical sequence of characters.
    spec fn message_spec(&self) -> Seq<char>;

    /// The human-readable message of this value.
    fn message(&self) -> (r: String)
        ensures
            r@ == self.message_spec(),
    ;
}

impl ErrorMessage for String {
    open spec fn message_spec(&self) -> Seq<char> {
        self@
    }

    fn message(&self) -> (r: String) {
        self.clone()
    }
}

} // verus!
