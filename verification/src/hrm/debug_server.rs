//! Command words of the monitor daemon's debug console.

use crate::text::{
    has_prefix, lowercased, parse_u16, parsed_u16, strip_prefix, text_is, to_lowercase, trim,
    trimmed,
};
use vstd::prelude::*;
use vstd::string::{StrSliceExecFns, StringExecFns};

verus! {

/// A line typed at the console.
#[derive(Debug, Clone)]
pub enum ConsoleCommand {
    /// Nothing was typed.
    Empty,
    /// `connect <addr>`: connect to the monitor with this address.
    Connect(String),
    /// `connect` with nothing behind it.
    ConnectUsage,
    /// `mock <bpm>`: fake a connected monitor at this heart rate.
    Mock(u16),
    /// `mock off`: stop faking.
    MockOff,
    /// `mock` with anything else behind it, or nothing.
    MockUsage,
    /// `help`: list the commands.
    Help,
    /// `state`: show the heart rate and the device.
    State,
    /// `scan`: scan afresh.
    Scan,
    /// `disconnect`: drop the connection.
    Disconnect,
    /// `forget`: forget the saved monitor and drop the connection.
    Forget,
    /// `sub`: follow the heart rate once per second.
    Subscribe,
    /// `quit` or `exit`: leave.
    Quit,
    /// Anything else; the line is attached.
    Unknown(String),
}

/// A console command as plain values.
pub enum ConsoleCommandView {
    /// Nothing was typed.
    Empty,
    /// Connect to this address.
    Connect(Seq<char>),
    /// `connect` with nothing behind it.
    ConnectUsage,
    /// Fake a connected monitor at this heart rate.
    Mock(u16),
    /// Stop faking.
    MockOff,
    /// `mock` with anything else behind it, or nothing.
    MockUsage,
    /// List the commands.
    Help,
    /// Show the heart rate and the device.
    State,
    /// Scan afresh.
    Scan,
    /// Drop the connection.
    Disconnect,
    /// Forget the saved monitor and drop the connection.
    Forget,
    /// Follow the heart rate once per second.
    Subscribe,
    /// Leave.
    Quit,
    /// Anything else, and the line.
    Unknown(Seq<char>),
}

impl View for ConsoleCommand {
    type V = ConsoleCommandView;

    open spec fn view(&self) -> ConsoleCommandView {
        match *self {
            ConsoleCommand::Empty => ConsoleCommandView::Empty,
            ConsoleCommand::Connect(address) => ConsoleCommandView::Connect(address@),
            ConsoleCommand::ConnectUsage => ConsoleCommandView::ConnectUsage,
            ConsoleCommand::Mock(bpm) => ConsoleCommandView::Mock(bpm),
            ConsoleCommand::MockOff => ConsoleCommandView::MockOff,
            ConsoleCommand::MockUsage => ConsoleCommandView::MockUsage,
            ConsoleCommand::Help => ConsoleCommandView::Help,
            ConsoleCommand::State => ConsoleCommandView::State,
            ConsoleCommand::Scan => ConsoleCommandView::Scan,
            ConsoleCommand::Disconnect => ConsoleCommandView::Disconnect,
            ConsoleCommand::Forget => ConsoleCommandView::Forget,
            ConsoleCommand::Subscribe => ConsoleCommandView::Subscribe,
            ConsoleCommand::Quit => ConsoleCommandView::Quit,
            ConsoleCommand::Unknown(line) => ConsoleCommandView::Unknown(line@),
        }
    }
}

/// What `connect` means with the trimmed text behind it.
pub open spec fn connect_command(address: Seq<char>) -> ConsoleCommandView {
    if address.len() == 0 {
        ConsoleCommandView::ConnectUsage
    } else {
        ConsoleCommandView::Connect(address)
    }
}

/// What `mock` means with the trimmed text behind it: `off` stops the
/// faking, a 16-bit number sets the heart rate, anything else is misuse.
pub open spec fn mock_command(argument: Seq<char>) -> ConsoleCommandView {
    if argument == "off"@ {
        ConsoleCommandView::MockOff
    } else {
        match parsed_u16(argument) {
            Some(bpm) => ConsoleCommandView::Mock(bpm),
            None => ConsoleCommandView::MockUsage,
        }
    }
}

/// What a tidied line means that is a single word.
pub open spec fn word_command(text: Seq<char>) -> ConsoleCommandView {
    if text == "help"@ {
        ConsoleCommandView::Help
    } else if text == "state"@ {
        ConsoleCommandView::State
    } else if text == "scan"@ {
        ConsoleCommandView::Scan
    } else if text == "disconnect"@ {
        ConsoleCommandView::Disconnect
    } else if text == "forget"@ {
        ConsoleCommandView::Forget
    } else if text == "mock"@ {
        ConsoleCommandView::MockUsage
    } else if text == "sub"@ {
        ConsoleCommandView::Subscribe
    } else if text == "quit"@ || text == "exit"@ {
        ConsoleCommandView::Quit
    } else {
        ConsoleCommandView::Unknown(text)
    }
}

/// Reads what stands behind `connect`, already trimmed.
pub fn read_connect(address: &str) -> (cmd: ConsoleCommand)
    ensures
        cmd@ == connect_command(address@),
{
    if address.unicode_len() == 0 {
        ConsoleCommand::ConnectUsage
    } else {
        ConsoleCommand::Connect(String::from_str(address))
    }
}

/// Reads what stands behind `mock`, already trimmed.
pub fn read_mock(argument: &str) -> (cmd: ConsoleCommand)
    ensures
        cmd@ == mock_command(argument@),
{
    if text_is(argument, "off") {
        ConsoleCommand::MockOff
    } else {
        match parse_u16(argument) {
            Some(bpm) => ConsoleCommand::Mock(bpm),
            None => ConsoleCommand::MockUsage,
        }
    }
}

/// Reads a tidied line that is a single word.
pub fn read_word(text: &str) -> (cmd: ConsoleCommand)
    ensures
        cmd@ == word_command(text@),
{
    if text_is(text, "help") {
        ConsoleCommand::Help
    } else if text_is(text, "state") {
        ConsoleCommand::State
    } else if text_is(text, "scan") {
        ConsoleCommand::Scan
    } else if text_is(text, "disconnect") {
        ConsoleCommand::Disconnect
    } else if text_is(text, "forget") {
        ConsoleCommand::Forget
    } else if text_is(text, "mock") {
        ConsoleCommand::MockUsage
    } else if text_is(text, "sub") {
        ConsoleCommand::Subscribe
    } else if text_is(text, "quit") || text_is(text, "exit") {
        ConsoleCommand::Quit
    } else {
        ConsoleCommand::Unknown(String::from_str(text))
    }
}

/// What a line typed at the console means. The line is trimmed and put in
/// lower case. `connect` and `mock` take what follows their space, trimmed
/// once more; every other command is a single word.
pub open spec fn console_command_of(line: Seq<char>) -> ConsoleCommandView {
    let text = lowercased(trimmed(line));
    if text.len() == 0 {
        ConsoleCommandView::Empty
    } else if has_prefix(text, "connect "@) {
        connect_command(trimmed(text.skip("connect "@.len() as int)))
    } else if has_prefix(text, "mock "@) {
        mock_command(trimmed(text.skip("mock "@.len() as int)))
    } else {
        word_command(text)
    }
}

/// Reads a line typed at the console.
pub fn parse_console_line(line: &str) -> (cmd: ConsoleCommand)
    ensures
        cmd@ == console_command_of(line@),
{
    let lowered: String = to_lowercase(trim(line));
    let text: &str = lowered.as_str();
    if text.unicode_len() == 0 {
        return ConsoleCommand::Empty;
    }
    match strip_prefix(text, "connect ") {
        Some(rest) => read_connect(trim(rest.as_str())),
        None => match strip_prefix(text, "mock ") {
            Some(rest) => read_mock(trim(rest.as_str())),
            None => read_word(text),
        },
    }
}

} // verus!
