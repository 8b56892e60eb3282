//! The one error value that every failed translation turns into.

use vstd::prelude::*;
use vstd::string::*;

verus! {

/// A failed translation, described by a human-readable message.
#[derive(Debug, Clone, Ord, PartialOrd, Eq, PartialEq)]
pub struct TranslateError {
    message: String,
}

impl View for TranslateError {
    type V = Seq<char>;

    /// The message.
    closed spec fn view(&self) -> Seq<char> {
        self.message@
    }
}

impl TranslateError {
    /// An error carrying `msg` as its message.
    pub fn new(msg: String) -> (r: Self)
        ensures
            r@ == msg@,
    {
        Self { message: msg }
    }

    /// An error whose message is `prefix` followed by `detail`.
    pub fn with_detail(prefix: &str, detail: &str) -> (r: Self)
        ensures
            r@ == prefix@ + detail@,
    {
        let message = String::from_str(prefix).concat(detail);
        Self::new(message)
    }

    /// The message.
    pub fn message(&self) -> (r: &str)
        ensures
            r@ == self@,
    {
        self.message.as_str()
    }
}

} // verus!
