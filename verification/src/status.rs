//! Live state of a room, as one observation reports it.

use vstd::prelude::*;

verus! {

/// Status of the live stream
#[derive(Clone, Copy, Debug, PartialEq, Eq, Structural)]
pub enum Status {
    /// Stream is online.
    Online,
    /// Stream is offline.
    Offline,
    /// The status of the stream could not be determined.
    Unknown,
}

impl Status {
    /// What a status poll means: `Ok(true)` is online, `Ok(false)` offline,
    /// and a failed poll leaves the status unknown (never offline).
    pub open spec fn of_poll<E>(poll: Result<bool, E>) -> Status {
        match poll {
            Ok(true) => Status::Online,
            Ok(false) => Status::Offline,
            Err(_) => Status::Unknown,
        }
    }

    /// Reads the outcome of a status poll.
    pub fn from_poll<E>(poll: &Result<bool, E>) -> (status: Status)
        ensures
            status == Status::of_poll(*poll),
    {
        match poll {
            Ok(true) => Status::Online,
            Ok(false) => Status::Offline,
            Err(_) => Status::Unknown,
        }
    }

    /// `true` only for `Online`: an unknown status counts as not live.
    pub fn is_live(&self) -> (live: bool)
        ensures
            live == (*self == Status::Online),
    {
        match self {
            Status::Online => true,
            _ => false,
        }
    }
}

} // verus!
