use vstd::prelude::*;

verus! {

/// The kind of command a [`Message`] carries between grid nodes.
#[derive(Debug, Clone, Copy, PartialEq, Eq, Structural)]
pub enum CommandType {
    Ping,
    Chat,
    VoiceData,
    Status,
    Shutdown,
}

/// A command sent by `sender`, with a free-form `payload`.
#[derive(Debug)]
pub struct Message {
    pub command: CommandType,
    pub sender: String,
    pub payload: String,
}

impl Message {
    /// Builds a message, copying the sender and payload text.
    pub fn new(command: CommandType, sender: &str, payload: &str) -> (msg: Self)
        ensures
            msg.command == command,
            msg.sender@ == sender@,
            msg.payload@ == payload@,
    {
        Message { command, sender: sender.to_string(), payload: payload.to_string() }
    }
}

} // verus!
