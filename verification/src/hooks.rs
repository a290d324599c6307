//! What the mission answers players through the server's user hooks.
use crate::kinds::Side;
use vstd::prelude::*;

verus! {

/// Whether a player who tries to connect is let in: every player is.
pub fn on_player_try_connect(addr: &str, name: &str, ucid: &str, id: u32) -> (allowed: bool)
    ensures
        allowed,
{
    true
}

/// The chat message that goes out when a player sends one: the message as
/// it was sent, to the same audience.
pub fn on_player_try_send_chat(id: u32, msg: String, all: bool) -> (out: String)
    ensures
        out@ == msg@,
{
    msg
}

/// Whether a player who tries to take a slot on a side gets it: every
/// player does.
pub fn on_player_try_change_slot(id: u32, side: Side, slot: &str) -> (allowed: bool)
    ensures
        allowed,
{
    true
}

} // verus!
