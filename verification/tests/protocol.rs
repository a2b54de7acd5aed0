use subgrid::logger::log_entry;
use subgrid::protocol::{CommandType, Message};
use subgrid::scheduler::Scheduler;

#[test]
fn message_new_keeps_fields() {
    let m = Message::new(CommandType::Chat, "node-7", "hello grid");
    assert_eq!(m.command, CommandType::Chat);
    assert_eq!(m.sender, "node-7");
    assert_eq!(m.payload, "hello grid");
}

#[test]
fn scheduler_reports_each_command() {
    let line = |c, s: &str, p: &str| Scheduler::process(Message::new(c, s, p));
    assert_eq!(line(CommandType::Ping, "alpha", "x"), "[alpha] Scheduler: Pong!");
    assert_eq!(line(CommandType::Chat, "alpha", "hi all"), "[alpha] Chat: hi all");
    assert_eq!(line(CommandType::Status, "beta", ""), "[beta] Scheduler: Reporting status...");
    assert_eq!(line(CommandType::Shutdown, "root", "admin"), "[root] Scheduler: Initiating shutdown by admin");
    assert_eq!(line(CommandType::VoiceData, "gamma", "mic-1"), "[gamma] Voice stream from: mic-1");
}

#[test]
fn log_entries() {
    assert_eq!(log_entry(1700000000, "boot"), "[1700000000] - boot\n");
    assert_eq!(log_entry(0, ""), "[0] - \n");
}
