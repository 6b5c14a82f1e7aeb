//! The error value that completions and notifications carry.

use vstd::prelude::*;

verus! {

/// A failure reported by a remote call, by local persistence, or by a
/// request made without a valid selection.  Only the message is kept.
#[derive(Debug, PartialEq, Eq)]
pub struct AppError {
    pub msg: String,
}

impl AppError {
    pub fn new(msg: String) -> (r: AppError)
        ensures
            r.msg == msg,
    {
        AppError { msg }
    }
}

impl Clone for AppError {
    fn clone(&self) -> (res: Self)
        ensures
            res == self,
    {
        AppError { msg: self.msg.clone() }
    }
}

} // verus!
