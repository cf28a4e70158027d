use vstd::prelude::*;
use vstd::string::*;
use crate::clock::ClockTime;
use crate::envelope::{ChatMessage, EnvelopeView, MessageType};
use crate::text::{trim_text, trimmed};

verus! {

/// The text shown for the help command.
pub const HELP_TEXT: &'static str = "\n=== Commands ===\n/help - Show this help\n/clear - Clear messages\n/quit - Exit chat\n\n";

/// What a line typed by the user asks for.
#[derive(Debug, PartialEq, Eq)]
pub enum ClientInput {
    /// Blank input: nothing to do.
    Ignore,
    /// Show the list of commands.
    Help,
    /// Clear the message area.
    Clear,
    /// Leave the chat.
    Quit,
    /// Send this line, delimiter included, to the server.
    Send(String),
}

/// The mathematical value of a client input.
pub enum ClientInputView {
    Ignore,
    Help,
    Clear,
    Quit,
    Send(Seq<char>),
}

impl View for ClientInput {
    type V = ClientInputView;

    open spec fn view(&self) -> ClientInputView {
        match self {
            ClientInput::Ignore => ClientInputView::Ignore,
            ClientInput::Help => ClientInputView::Help,
            ClientInput::Clear => ClientInputView::Clear,
            ClientInput::Quit => ClientInputView::Quit,
            ClientInput::Send(l) => ClientInputView::Send(l@),
        }
    }
}

/// What the typed text `s` asks for, given `t`, the text trimmed of white
/// space: blank text is ignored, the three commands must match exactly, and
/// anything else is sent as one line.
pub open spec fn input_meaning_given(s: Seq<char>, t: Seq<char>) -> ClientInputView {
    if t.len() == 0 {
        ClientInputView::Ignore
    } else if s == "/help"@ {
        ClientInputView::Help
    } else if s == "/clear"@ {
        ClientInputView::Clear
    } else if s == "/quit"@ {
        ClientInputView::Quit
    } else {
        ClientInputView::Send(s + "\n"@)
    }
}

/// What the typed text `s` asks for.
pub open spec fn input_meaning(s: Seq<char>) -> ClientInputView {
    input_meaning_given(s, trimmed(s))
}

/// Decides what the typed text asks for.
pub fn classify_input(text: &String) -> (r: ClientInput)
    ensures
        r@ == input_meaning(text@),
{
    let t = trim_text(text.as_str());
    classify_trimmed(text, t.as_str())
}

/// Decides what the typed text asks for, given the text trimmed of white
/// space.
pub fn classify_trimmed(text: &String, trimmed_text: &str) -> (r: ClientInput)
    ensures
        r@ == input_meaning_given(text@, trimmed_text@),
{
    if trimmed_text.is_empty() {
        return ClientInput::Ignore;
    }
    let help = String::from_str("/help");
    let clear = String::from_str("/clear");
    let quit = String::from_str("/quit");
    if *text == help {
        ClientInput::Help
    } else if *text == clear {
        ClientInput::Clear
    } else if *text == quit {
        ClientInput::Quit
    } else {
        ClientInput::Send(line_of(text.as_str()))
    }
}

/// `s` followed by the line delimiter: the form in which a username or a
/// chat line goes to the server.
pub fn line_of(s: &str) -> (r: String)
    ensures
        r@ == s@ + "\n"@,
{
    let mut out = String::from_str(s);
    out.append("\n");
    out
}

/// How an envelope is shown: a chat line under its timestamp with its
/// sender, a notice as one bracketed line.
pub open spec fn rendered(e: EnvelopeView) -> Seq<char> {
    match e.kind {
        MessageType::UserMessage => "┌─["@ + e.timestamp + "]\n└─ "@ + e.username + " ▶ "@ + e.content + "\n"@,
        MessageType::SystemNotification => "\n["@ + e.username + " "@ + e.content + "]\n"@,
    }
}

/// Renders an envelope for the message area.
pub fn render(m: &ChatMessage) -> (r: String)
    ensures
        r@ == rendered(m@),
{
    match m.message_type {
        MessageType::UserMessage => {
            let mut out = String::from_str("┌─[");
            out.append(m.timestamp.as_str());
            out.append("]\n└─ ");
            out.append(m.username.as_str());
            out.append(" ▶ ");
            out.append(m.content.as_str());
            out.append("\n");
            out
        },
        MessageType::SystemNotification => {
            let mut out = String::from_str("\n[");
            out.append(m.username.as_str());
            out.append(" ");
            out.append(m.content.as_str());
            out.append("]\n");
            out
        },
    }
}

/// The title line: the user's name and the time the chat opened.
pub open spec fn header_text(user: Seq<char>, now: ClockTime) -> Seq<char> {
    "╔═ RETRO CHAT ═╗ User: "@ + user + " ╔═ "@ + now.hms() + " ═╗"@
}

/// Builds the title line.
pub fn header(user: &str, now: ClockTime) -> (r: String)
    requires
        now.wf(),
    ensures
        r@ == header_text(user@, now),
{
    let mut out = String::from_str("╔═ RETRO CHAT ═╗ User: ");
    out.append(user);
    out.append(" ╔═ ");
    let stamp = now.to_hms();
    out.append(stamp.as_str());
    out.append(" ═╗");
    out
}

} // verus!
