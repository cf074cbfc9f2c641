//! Application-defined messages between the boards of one keyboard, routed by
//! their target.
use vstd::prelude::*;

use crate::bytes::{message_contents, MessageBytes};
use crate::config::CUSTOM_MESSAGE_MAX_SIZE;

verus! {

/// Target receiver of a custom message.
#[derive(Clone, Copy, Debug, PartialEq, Eq, Structural)]
pub enum CustomMessageTarget {
    Dongle,
    Central,
    Peripherals,
}

/// A custom message defined by users.
pub struct CustomMessage {
    pub data: MessageBytes,
    pub target: CustomMessageTarget,
}

/// The most bytes an encoded custom message takes: the payload, its length
/// prefix and the target.
pub const CUSTOM_MESSAGE_POSTCARD_MAX_SIZE: usize = CUSTOM_MESSAGE_MAX_SIZE + 3;

impl CustomMessage {
    /// A message carrying a copy of `data` to `target`; `Err` when `data` is
    /// longer than `CUSTOM_MESSAGE_MAX_SIZE`.
    pub fn new(data: &[u8], target: CustomMessageTarget) -> (r: Result<CustomMessage, ()>)
        ensures
            r is Ok <==> data@.len() <= CUSTOM_MESSAGE_MAX_SIZE,
            r matches Ok(m) ==> message_contents(m.data) == data@ && m.target == target,
    {
        match MessageBytes::from_slice(data) {
            Ok(bytes) => Ok(CustomMessage { data: bytes, target }),
            Err(_) => Err(()),
        }
    }
}

/// A custom message on its way out. A board that receives a custom message
/// forwards it as this event, never as the message itself, so forwarding
/// cannot loop.
pub struct CustomMessageOut(pub CustomMessage);

/// The event that queues `message` on every link this board has.
pub fn send(message: CustomMessage) -> (r: CustomMessageOut)
    ensures
        r.0 == message,
{
    CustomMessageOut(message)
}

/// Whether a link that forwards to `target` (every target when `None`) takes
/// a message for `message_target`.
pub fn should_forward(target: Option<CustomMessageTarget>, message_target: CustomMessageTarget) -> (r: bool)
    ensures
        r == match target {
            Some(t) => t == message_target,
            None => true,
        },
{
    match target {
        Some(t) => t == message_target,
        None => true,
    }
}

} // verus!
