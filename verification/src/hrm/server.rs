//! Requests that clients of the monitor daemon send: one JSON document a
//! line, with the command under `cmd`.

use crate::hrm::scanner::{CommandKind, HrmCommand};
use crate::json::{error_text, get_text, json_document, json_failure, parse_document, text_member};
use crate::text::{text_is, trim, trimmed};
use vstd::prelude::*;
use vstd::string::{StrSliceExecFns, StringExecFns};

verus! {

/// What a client asks for.
#[derive(Debug, Clone)]
pub enum ServerRequest {
    /// An empty line: nothing is asked and nothing answered.
    Empty,
    /// The line is no JSON document; the reason is attached.
    InvalidJson(String),
    /// Connect to the monitor with this address.
    Connect(String),
    /// A command to connect without an address.
    MissingAddress,
    /// Drop the connection.
    Disconnect,
    /// Drop the connection and forget the saved monitor.
    Forget,
    /// Scan afresh.
    Scan,
    /// Report the status.
    Status,
    /// A command the server does not know; its word is attached.
    Unknown(String),
}

/// A request as plain values.
pub enum ServerRequestView {
    /// An empty line.
    Empty,
    /// No JSON document, and why.
    InvalidJson(Seq<char>),
    /// Connect to this address.
    Connect(Seq<char>),
    /// A command to connect without an address.
    MissingAddress,
    /// Drop the connection.
    Disconnect,
    /// Drop the connection and forget the saved monitor.
    Forget,
    /// Scan afresh.
    Scan,
    /// Report the status.
    Status,
    /// An unknown command, and its word.
    Unknown(Seq<char>),
}

impl View for ServerRequest {
    type V = ServerRequestView;

    open spec fn view(&self) -> ServerRequestView {
        match *self {
            ServerRequest::Empty => ServerRequestView::Empty,
            ServerRequest::InvalidJson(reason) => ServerRequestView::InvalidJson(reason@),
            ServerRequest::Connect(address) => ServerRequestView::Connect(address@),
            ServerRequest::MissingAddress => ServerRequestView::MissingAddress,
            ServerRequest::Disconnect => ServerRequestView::Disconnect,
            ServerRequest::Forget => ServerRequestView::Forget,
            ServerRequest::Scan => ServerRequestView::Scan,
            ServerRequest::Status => ServerRequestView::Status,
            ServerRequest::Unknown(word) => ServerRequestView::Unknown(word@),
        }
    }
}

/// The text of an optional member; empty where there is none.
pub open spec fn text_or_empty(text: Option<Seq<char>>) -> Seq<char> {
    match text {
        Some(t) => t,
        None => Seq::<char>::empty(),
    }
}

/// The request that a document makes, given its `cmd` and `address`
/// members. A member that is missing or no text counts as empty.
pub open spec fn classified_request(
    cmd: Option<Seq<char>>,
    address: Option<Seq<char>>,
) -> ServerRequestView {
    let word = text_or_empty(cmd);
    if word == "connect"@ {
        if text_or_empty(address).len() == 0 {
            ServerRequestView::MissingAddress
        } else {
            ServerRequestView::Connect(text_or_empty(address))
        }
    } else if word == "disconnect"@ {
        ServerRequestView::Disconnect
    } else if word == "forget"@ {
        ServerRequestView::Forget
    } else if word == "scan"@ {
        ServerRequestView::Scan
    } else if word == "status"@ {
        ServerRequestView::Status
    } else {
        ServerRequestView::Unknown(word)
    }
}

/// The characters of an optional text.
pub open spec fn text_view(text: Option<&str>) -> Option<Seq<char>> {
    match text {
        Some(t) => Some(t@),
        None => None,
    }
}

/// Classifies a document by the members that were read from it.
pub fn classify_request(cmd: Option<&str>, address: Option<&str>) -> (request: ServerRequest)
    ensures
        request@ == classified_request(text_view(cmd), text_view(address)),
{
    let word: &str = match cmd {
        Some(t) => t,
        None => "",
    };
    proof {
        reveal_strlit("");
    }
    assert(word@ =~= text_or_empty(text_view(cmd)));
    if text_is(word, "connect") {
        let target: &str = match address {
            Some(t) => t,
            None => "",
        };
        assert(target@ =~= text_or_empty(text_view(address)));
        if target.unicode_len() == 0 {
            ServerRequest::MissingAddress
        } else {
            ServerRequest::Connect(String::from_str(target))
        }
    } else if text_is(word, "disconnect") {
        ServerRequest::Disconnect
    } else if text_is(word, "forget") {
        ServerRequest::Forget
    } else if text_is(word, "scan") {
        ServerRequest::Scan
    } else if text_is(word, "status") {
        ServerRequest::Status
    } else {
        ServerRequest::Unknown(String::from_str(word))
    }
}

/// What a line from a client asks for. The white space around the line
/// does not count; a line with nothing else asks nothing.
pub open spec fn request_of(line: Seq<char>) -> ServerRequestView {
    let text = trimmed(line);
    if text.len() == 0 {
        ServerRequestView::Empty
    } else {
        match json_document(text) {
            None => ServerRequestView::InvalidJson(json_failure(text)),
            Some(document) => classified_request(
                text_member(document, "cmd"@),
                text_member(document, "address"@),
            ),
        }
    }
}

/// Parses one line received from a client.
pub fn parse_request(line: &str) -> (request: ServerRequest)
    ensures
        request@ == request_of(line@),
{
    let text: &str = trim(line);
    if text.unicode_len() == 0 {
        return ServerRequest::Empty;
    }
    match parse_document(text) {
        Err(error) => ServerRequest::InvalidJson(error_text(&error)),
        Ok(document) => {
            let cmd: Option<&str> = get_text(&document, "cmd");
            let address: Option<&str> = get_text(&document, "address");
            classify_request(cmd, address)
        },
    }
}

impl ServerRequest {
    /// The command that the request hands to the scanner, if any.
    pub open spec fn spec_command(&self) -> Option<CommandKind> {
        match *self {
            ServerRequest::Connect(_) => Some(CommandKind::Connect),
            ServerRequest::Disconnect => Some(CommandKind::Disconnect),
            ServerRequest::Forget => Some(CommandKind::Forget),
            ServerRequest::Scan => Some(CommandKind::Scan),
            _ => None,
        }
    }

    /// The command that the request hands to the scanner, if any.
    #[verifier::when_used_as_spec(spec_command)]
    pub fn command(&self) -> (kind: Option<CommandKind>)
        ensures
            kind == self.spec_command(),
    {
        match self {
            ServerRequest::Connect(_) => Some(CommandKind::Connect),
            ServerRequest::Disconnect => Some(CommandKind::Disconnect),
            ServerRequest::Forget => Some(CommandKind::Forget),
            ServerRequest::Scan => Some(CommandKind::Scan),
            _ => None,
        }
    }

    /// Turns the request into the command that it hands to the scanner,
    /// if any.
    pub fn into_command(self) -> (command: Option<HrmCommand>)
        ensures
            match command {
                Some(HrmCommand::Connect(address)) => self@ == ServerRequestView::Connect(address@),
                Some(HrmCommand::Disconnect) => self@ == ServerRequestView::Disconnect,
                Some(HrmCommand::Forget) => self@ == ServerRequestView::Forget,
                Some(HrmCommand::Scan) => self@ == ServerRequestView::Scan,
                None => self.spec_command() is None,
            },
    {
        match self {
            ServerRequest::Connect(address) => Some(HrmCommand::Connect(address)),
            ServerRequest::Disconnect => Some(HrmCommand::Disconnect),
            ServerRequest::Forget => Some(HrmCommand::Forget),
            ServerRequest::Scan => Some(HrmCommand::Scan),
            _ => None,
        }
    }

    /// Whether the request is answered with the status: every request that
    /// hands on a command is, and the request for the status itself.
    pub open spec fn spec_answers_status(&self) -> bool {
        self.spec_command() is Some || *self is Status
    }

    /// Whether the request is answered with the status.
    #[verifier::when_used_as_spec(spec_answers_status)]
    pub fn answers_status(&self) -> (answers: bool)
        ensures
            answers == self.spec_answers_status(),
    {
        match self {
            ServerRequest::Connect(_) => true,
            ServerRequest::Disconnect => true,
            ServerRequest::Forget => true,
            ServerRequest::Scan => true,
            ServerRequest::Status => true,
            _ => false,
        }
    }

    /// The error message that answers the request, where it is refused.
    pub open spec fn error_message_text(&self) -> Option<Seq<char>> {
        match *self {
            ServerRequest::InvalidJson(reason) => Some("invalid JSON: "@ + reason@),
            ServerRequest::MissingAddress => Some("missing 'address' field"@),
            ServerRequest::Unknown(word) => Some("unknown command: '"@ + word@ + "'"@),
            _ => None,
        }
    }

    /// Writes the error message that answers the request, where it is
    /// refused.
    pub fn error_message(&self) -> (message: Option<String>)
        ensures
            match message {
                Some(m) => self.error_message_text() == Some(m@),
                None => self.error_message_text() is None,
            },
    {
        match self {
            ServerRequest::InvalidJson(reason) => {
                let mut message: String = String::from_str("invalid JSON: ");
                message.append(reason.as_str());
                Some(message)
            },
            ServerRequest::MissingAddress => Some(String::from_str("missing 'address' field")),
            ServerRequest::Unknown(word) => {
                let mut message: String = String::from_str("unknown command: '");
                message.append(word.as_str());
                message.append("'");
                Some(message)
            },
            _ => None,
        }
    }
}

} // verus!
