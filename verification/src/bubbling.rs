//! An operation that fails on demand, for callers that pass failures up.

use vstd::prelude::*;
use vstd::string::StringExecFns;

verus! {

/// The failure of an operation.
#[derive(Debug)]
pub struct Error;

/// What carries the operations out.
#[derive(Debug)]
pub struct Demo;

impl Demo {
    /// Succeeds with the text `no error` if `p` holds, and fails otherwise.
    pub fn do_err(&self, p: bool) -> (outcome: Result<String, Error>)
        ensures
            outcome.is_ok() == p,
            outcome matches Ok(text) ==> text@ == "no error"@,
    {
        let e = Error {  };
        if p {
            Ok(String::from_str("no error"))
        } else {
            Err(e)
        }
    }
}

} // verus!
