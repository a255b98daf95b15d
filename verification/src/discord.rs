//! Notifications: what a cycle tells the outside about an item that failed.

use vstd::prelude::*;
use vstd::string::*;
use crate::error::{ErrorKind, ScrapeError};

verus! {

/// A message for one channel of the notification sink.
#[derive(Debug)]
pub struct TaskNotification {
    pub channel: u64,
    pub message: String,
}

/// The name of a kind of failure, as a notification shows it.
pub open spec fn kind_name(kind: ErrorKind) -> Seq<char> {
    match kind {
        ErrorKind::Render => "render error: "@,
        ErrorKind::Timeout => "timeout: "@,
        ErrorKind::Fetch => "fetch error: "@,
        ErrorKind::Storage => "storage error: "@,
        ErrorKind::Validation => "validation error: "@,
    }
}

impl TaskNotification {
    /// A message for the given channel.
    pub fn new(channel: u64, message: String) -> (r: Self)
        ensures
            r.channel == channel,
            r.message == message,
    {
        Self { channel, message }
    }

    /// The message that tells the given channel of a failure: the name of its
    /// kind, followed by its text.
    pub fn failure(channel: u64, error: &ScrapeError) -> (r: Self)
        ensures
            r.channel == channel,
            r.message@ == kind_name(error.kind) + error.message@,
    {
        let prefix = match error.kind {
            ErrorKind::Render => "render error: ",
            ErrorKind::Timeout => "timeout: ",
            ErrorKind::Fetch => "fetch error: ",
            ErrorKind::Storage => "storage error: ",
            ErrorKind::Validation => "validation error: ",
        };
        Self { channel, message: prefix.to_owned().concat(error.message.as_str()) }
    }
}

} // verus!
