//! The error value the client reports: a numeric code and a message.

use vstd::prelude::*;

verus! {

/// A client error: a code and a message.
#[derive(Debug)]
pub struct ShenYuError {
    code: u16,
    message: String,
}

impl ShenYuError {
    /// The numeric code.
    pub closed spec fn spec_code(self) -> u16 {
        self.code
    }

    /// The message text.
    pub closed spec fn spec_message(self) -> Seq<char> {
        self.message@
    }

    pub fn new(code: u16, message: String) -> (e: Self)
        ensures
            e.spec_code() == code,
            e.spec_message() == message@,
    {
        ShenYuError { code, message }
    }

    pub fn code(&self) -> (r: u16)
        ensures
            r == self.spec_code(),
    {
        self.code
    }

    pub fn message(&self) -> (r: &String)
        ensures
            r@ == self.spec_message(),
    {
        &self.message
    }
}

} // verus!
