//! The boundary to the class path, from which the bytes of a class come.

use vstd::prelude::*;

verus! {

/// Models an entry in the class path, such as a single archive or
/// directory. Given the binary name of a class, it answers with the bytes
/// of the class file, or with nothing if it does not hold the class.
pub trait ClassPathEntry: std::fmt::Debug {
    fn resolve(&self, class_name: &str) -> Result<Option<Vec<u8>>, ClassLoadingError>;
}

/// Error returned when loading a class does not work.
#[derive(Debug)]
pub struct ClassLoadingError {
    message: String,
}

impl View for ClassLoadingError {
    type V = Seq<char>;

    closed spec fn view(&self) -> Seq<char> {
        self.message@
    }
}

impl ClassLoadingError {
    /// The error with the given message.
    pub fn new(message: String) -> (error: Self)
        ensures
            error@ == message@,
    {
        ClassLoadingError { message }
    }

    /// The message of the error.
    pub fn to_text(&self) -> (text: String)
        ensures
            text@ == self@,
    {
        self.message.clone()
    }
}

} // verus!
