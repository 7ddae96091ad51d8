//! What a caller of the storage handle learns from one round trip.

use vstd::prelude::*;
use crate::command::DbResponse;

verus! {

/// Why a command did not succeed, as its caller sees it.
#[derive(Debug)]
pub enum HandleError {
    /// The command could not be queued: the actor is gone.
    SendFailed,
    /// The command was queued and no reply came: the actor dropped it.
    ResponseLost,
    /// The actor executed the command and the store refused it.
    Command(String),
}

pub enum HandleErrorView {
    SendFailed,
    ResponseLost,
    Command(Seq<char>),
}

impl View for HandleError {
    type V = HandleErrorView;

    open spec fn view(&self) -> HandleErrorView {
        match self {
            HandleError::SendFailed => HandleErrorView::SendFailed,
            HandleError::ResponseLost => HandleErrorView::ResponseLost,
            HandleError::Command(message) => HandleErrorView::Command(message@),
        }
    }
}

/// What came of a submission: whether the queue took the command, and the
/// reply if one arrived.
pub open spec fn round_trip(
    sent: bool,
    reply: Option<Result<DbResponse, Seq<char>>>,
) -> Result<(), HandleErrorView> {
    if !sent {
        Err(HandleErrorView::SendFailed)
    } else {
        match reply {
            None => Err(HandleErrorView::ResponseLost),
            Some(Err(message)) => Err(HandleErrorView::Command(message)),
            Some(Ok(_)) => Ok(()),
        }
    }
}

/// The reply as plain mathematical values.
pub open spec fn reply_view(reply: Option<Result<DbResponse, String>>) -> Option<
    Result<DbResponse, Seq<char>>,
> {
    match reply {
        None => None,
        Some(Err(message)) => Some(Err(message@)),
        Some(Ok(response)) => Some(Ok(response)),
    }
}

/// The result of one round trip through the handle. A command that was not
/// delivered, or not answered, fails otherwise than one that the store
/// refused; any success marker counts as success.
pub fn settle_reply(sent: bool, reply: Option<Result<DbResponse, String>>) -> (result: Result<
    (),
    HandleError,
>)
    ensures
        match result {
            Ok(_) => round_trip(sent, reply_view(reply)) is Ok,
            Err(error) => round_trip(sent, reply_view(reply)) == Err::<(), HandleErrorView>(
                error@,
            ),
        },
{
    if !sent {
        Err(HandleError::SendFailed)
    } else {
        match reply {
            None => Err(HandleError::ResponseLost),
            Some(Err(message)) => Err(HandleError::Command(message)),
            Some(Ok(_)) => Ok(()),
        }
    }
}

impl HandleError {
    /// Whether the command never reached the store: it was not delivered or
    /// not answered.
    pub fn is_delivery(&self) -> (delivery: bool)
        ensures
            delivery == !(self@ is Command),
    {
        match self {
            HandleError::Command(_) => false,
            _ => true,
        }
    }
}

} // verus!
