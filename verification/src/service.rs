//! The reply to a lock request.
use vstd::prelude::*;
use vstd::string::StringExecFns;
use crate::state::State;

verus! {

/// What a lock request is answered with.
#[derive(Debug, PartialEq, Eq)]
pub struct LockReply {
    /// Whether the request was served. A lock cannot fail, so this is
    /// always `true`.
    pub success: bool,
    /// Which frames the snapshot now holds, in words.
    pub message: String,
}

/// A truth value in words.
pub open spec fn bool_text(value: bool) -> Seq<char> {
    if value {
        "true"@
    } else {
        "false"@
    }
}

/// The status line of a lock reply: `gantry: <bool>, facade: <bool>`.
pub open spec fn lock_message_text(gantry: bool, facade: bool) -> Seq<char> {
    "gantry: "@ + bool_text(gantry) + ", facade: "@ + bool_text(facade)
}

/// A truth value in words.
pub fn bool_str(value: bool) -> (text: &'static str)
    ensures
        text@ == bool_text(value),
{
    if value {
        "true"
    } else {
        "false"
    }
}

/// Writes the status line of a lock reply.
pub fn lock_message(gantry: bool, facade: bool) -> (message: String)
    ensures
        message@ == lock_message_text(gantry, facade),
{
    let mut message = String::from_str("gantry: ");
    message.append(bool_str(gantry));
    message.append(", facade: ");
    message.append(bool_str(facade));
    message
}

impl State {
    /// Serves a lock request: locks the facade and the gantry frame as
    /// [`State::lock`] does, and reports which of them the snapshot holds
    /// afterwards.
    pub fn lock_reply(&mut self) -> (reply: LockReply)
        ensures
            final(self)@ == old(self)@.locked(),
            reply.success,
            reply.message@ == lock_message_text(
                final(self)@.locked_gantry is Some,
                final(self)@.locked_facade is Some,
            ),
    {
        let (facade, gantry) = self.lock();
        LockReply { success: true, message: lock_message(gantry, facade) }
    }
}

} // verus!
