//! Utilities for working with DBus.

use vstd::prelude::*;

verus! {

/// A flag of a request for a name on the bus.
#[derive(Debug, Copy, Clone, PartialEq, Eq)]
pub enum RequestNameFlag {
    /// Let another process take the name over.
    AllowReplacement,
    /// Take the name over from its owner, if the owner allows it.
    ReplaceExisting,
    /// Fail if the name is taken, rather than wait in the queue for it.
    DoNotQueue,
}

/// What the bus replies to a request for a name.
#[derive(Debug, Copy, Clone, PartialEq, Eq)]
pub enum RequestNameReply {
    /// The caller is now the primary owner of the name.
    PrimaryOwner,
    /// The name has an owner, and the caller waits in the queue for it.
    InQueue,
    /// The name has an owner, and the caller does not wait for it.
    Exists,
    /// The caller owned the name already.
    AlreadyOwner,
}

/// Why a name on the bus could not be had exclusively.
#[derive(Debug, PartialEq, Eq)]
pub enum RequestNameError {
    /// Another process owns the name; holds the message that says so.
    AddressInUse(String),
    /// The bus queued the request although it was asked not to.
    InvalidReply,
}

/// The flags of a request for a name that the caller wants to own alone and at
/// once: the request is not to be queued.
pub fn exclusive_request_flags() -> (flags: Vec<RequestNameFlag>)
    ensures
        flags@ == seq![RequestNameFlag::DoNotQueue],
{
    let mut flags: Vec<RequestNameFlag> = Vec::new();
    flags.push(RequestNameFlag::DoNotQueue);
    flags
}

/// The message that tells that the given name is taken.
pub open spec fn name_exists_message(name: Seq<char>) -> Seq<char> {
    "Name "@ + name + " already exists on bus"@
}

/// Judge the reply of the bus to the exclusive request for `name`.
///
/// The request succeeded if the caller owns the name, now or from before.  If the
/// name is taken the request failed: a second instance of the service must not run
/// beside the first.
pub fn request_name_exclusive(name: &str, reply: RequestNameReply) -> (outcome: Result<
    (),
    RequestNameError,
>)
    ensures
        match reply {
            RequestNameReply::PrimaryOwner | RequestNameReply::AlreadyOwner => outcome is Ok,
            RequestNameReply::Exists => match outcome {
                Err(RequestNameError::AddressInUse(message)) => message@ == name_exists_message(
                    name@,
                ),
                _ => false,
            },
            RequestNameReply::InQueue => outcome == Err::<(), RequestNameError>(
                RequestNameError::InvalidReply,
            ),
        },
{
    match reply {
        RequestNameReply::PrimaryOwner | RequestNameReply::AlreadyOwner => Ok(()),
        RequestNameReply::Exists => {
            let mut message = "Name ".to_owned();
            message.append(name);
            message.append(" already exists on bus");
            Err(RequestNameError::AddressInUse(message))
        },
        RequestNameReply::InQueue => Err(RequestNameError::InvalidReply),
    }
}

} // verus!
