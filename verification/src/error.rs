//! What the user is told when something fails.
use vstd::prelude::*;

verus! {

/// A failure, by the message that describes it.
#[derive(Debug)]
pub struct Error {
    pub message: String,
}

impl View for Error {
    type V = Seq<char>;

    open spec fn view(&self) -> Seq<char> {
        self.message@
    }
}

impl Error {
    /// The failure that `message` describes.
    pub fn new(message: &str) -> (result: Error)
        ensures
            result@ == message@,
    {
        Error { message: message.to_owned() }
    }
}

} // verus!
