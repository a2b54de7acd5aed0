//! The engine's scheduler: what it reports for each incoming command.
use vstd::prelude::*;
use crate::protocol::{CommandType, Message};
use crate::text::concat_text;

verus! {

/// Dispatches grid messages to their handlers.
#[derive(Debug)]
pub struct Scheduler;

/// The line the scheduler reports for a message from `sender` with `payload`.
pub open spec fn report_line(command: CommandType, sender: Seq<char>, payload: Seq<char>) -> Seq<char> {
    "["@ + sender + "] "@ + match command {
        CommandType::Ping => "Scheduler: Pong!"@,
        CommandType::Chat => "Chat: "@ + payload,
        CommandType::Status => "Scheduler: Reporting status..."@,
        CommandType::Shutdown => "Scheduler: Initiating shutdown by "@ + payload,
        CommandType::VoiceData => "Voice stream from: "@ + payload,
    }
}

impl Scheduler {
    /// Handles `msg`: returns the line the scheduler reports for it, which the
    /// runtime prints.
    pub fn process(msg: Message) -> (line: String)
        ensures
            line@ == report_line(msg.command, msg.sender@, msg.payload@),
    {
        let mut line = concat_text("[", msg.sender.as_str());
        line.append("] ");
        match msg.command {
            CommandType::Ping => line.append("Scheduler: Pong!"),
            CommandType::Chat => {
                line.append("Chat: ");
                line.append(msg.payload.as_str());
            },
            CommandType::Status => line.append("Scheduler: Reporting status..."),
            CommandType::Shutdown => {
                line.append("Scheduler: Initiating shutdown by ");
                line.append(msg.payload.as_str());
            },
            CommandType::VoiceData => {
                line.append("Voice stream from: ");
                line.append(msg.payload.as_str());
            },
        }
        assert(line@ =~= report_line(msg.command, msg.sender@, msg.payload@));
        line
    }
}

} // verus!
