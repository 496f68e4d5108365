//! Failures, described by the text that the plugin shows for them.

use vstd::prelude::*;
use crate::text::concat;

verus! {

/// A failure: its message, and its message followed by the messages of the
/// failures that caused it, each after `": "`.
#[derive(Debug)]
pub struct Failure {
    pub message: String,
    pub detail: String,
}

impl Failure {
    /// A failure with no cause.
    pub fn new(message: String) -> (f: Failure)
        ensures
            f.message@ == message@,
            f.detail@ == message@,
    {
        let detail = message.clone();
        Failure { message, detail }
    }

    /// A failure with this message.
    pub fn msg(message: &str) -> (f: Failure)
        ensures
            f.message@ == message@,
            f.detail@ == message@,
    {
        Failure::new(String::from_str(message))
    }

    /// A failure with this message, caused by `cause`.
    pub fn caused_by(message: &str, cause: &Failure) -> (f: Failure)
        ensures
            f.message@ == message@,
            f.detail@ == message@ + ": "@ + cause.detail@,
    {
        let head = concat(message, ": ");
        Failure { message: String::from_str(message), detail: concat(head.as_str(), cause.detail.as_str()) }
    }
}

impl Clone for Failure {
    fn clone(&self) -> (r: Self)
        ensures
            r == *self,
    {
        Failure { message: self.message.clone(), detail: self.detail.clone() }
    }
}

} // verus!
