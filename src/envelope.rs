use vstd::prelude::*;
use vstd::string::*;

verus! {

/// The two kinds of envelope.
#[derive(Clone, Copy, Debug, PartialEq, Eq, Structural)]
pub enum MessageType {
    /// A chat line written by the named user.
    UserMessage,
    /// A lifecycle event announced by the server on behalf of the named user.
    SystemNotification,
}

/// One chat or lifecycle record, as fanned out to every connection.
#[derive(Clone, Debug)]
pub struct ChatMessage {
    pub username: String,
    pub content: String,
    pub timestamp: String,
    pub message_type: MessageType,
}

/// The mathematical value of an envelope.
pub struct EnvelopeView {
    pub username: Seq<char>,
    pub content: Seq<char>,
    pub timestamp: Seq<char>,
    pub kind: MessageType,
}

impl View for ChatMessage {
    type V = EnvelopeView;

    open spec fn view(&self) -> EnvelopeView {
        EnvelopeView {
            username: self.username@,
            content: self.content@,
            timestamp: self.timestamp@,
            kind: self.message_type,
        }
    }
}

/// The content of the notification sent when a user joins.
pub open spec fn joined_text() -> Seq<char> {
    "joined the chat!"@
}

/// The content of the notification sent when a user leaves.
pub open spec fn left_text() -> Seq<char> {
    "left the chat!"@
}

/// A join notification for `user`.
pub open spec fn is_join_of(e: EnvelopeView, user: Seq<char>) -> bool {
    e.kind == MessageType::SystemNotification && e.content == joined_text() && e.username == user
}

/// A leave notification for `user`.
pub open spec fn is_leave_of(e: EnvelopeView, user: Seq<char>) -> bool {
    e.kind == MessageType::SystemNotification && e.content == left_text() && e.username == user
}

/// A join notification, whoever it is for.
pub open spec fn is_join(e: EnvelopeView) -> bool {
    is_join_of(e, e.username)
}

/// A leave notification, whoever it is for.
pub open spec fn is_leave(e: EnvelopeView) -> bool {
    is_leave_of(e, e.username)
}

/// A lower-case hexadecimal digit for `d` (which is below sixteen).
pub open spec fn hex_digit(d: nat) -> char {
    if d < 10 {
        (48 + d) as char
    } else {
        (87 + d) as char
    }
}

/// How one character is written inside a JSON string: quote and backslash
/// get a backslash, five control characters get their short escape, the
/// other control characters below space are written `\u00XX`, and every
/// other character stands as it is.
pub open spec fn json_escape_char(c: char) -> Seq<char> {
    let n = c as u32;
    if c == '"' {
        seq!['\\', '"']
    } else if c == '\\' {
        seq!['\\', '\\']
    } else if n == 8 {
        seq!['\\', 'b']
    } else if n == 9 {
        seq!['\\', 't']
    } else if n == 10 {
        seq!['\\', 'n']
    } else if n == 12 {
        seq!['\\', 'f']
    } else if n == 13 {
        seq!['\\', 'r']
    } else if n < 32 {
        seq!['\\', 'u', '0', '0', hex_digit(n as nat / 16), hex_digit(n as nat % 16)]
    } else {
        seq![c]
    }
}

/// The characters of `s`, each escaped for a JSON string.
pub open spec fn json_escaped(s: Seq<char>) -> Seq<char>
    decreases s.len(),
{
    if s.len() == 0 {
        Seq::empty()
    } else {
        json_escaped(s.drop_last()) + json_escape_char(s.last())
    }
}

/// The JSON string literal for the text `s`, quotes included.
pub open spec fn json_string_of(s: Seq<char>) -> Seq<char> {
    seq!['"'] + json_escaped(s) + seq!['"']
}

/// The JSON value written for a message kind.
pub open spec fn kind_json(k: MessageType) -> Seq<char> {
    match k {
        MessageType::UserMessage => "\"UserMessage\""@,
        MessageType::SystemNotification => "\"SystemNotification\""@,
    }
}

/// The JSON object of an envelope whose three text fields are already
/// written as JSON string literals.
pub open spec fn json_object(user: Seq<char>, content: Seq<char>, stamp: Seq<char>, k: MessageType) -> Seq<char> {
    "{\"username\":"@ + user + ",\"content\":"@ + content + ",\"timestamp\":"@ + stamp
        + ",\"message_type\":"@ + kind_json(k) + "}"@
}

/// The wire form of an envelope: one JSON object.
pub open spec fn envelope_json(e: EnvelopeView) -> Seq<char> {
    json_object(json_string_of(e.username), json_string_of(e.content), json_string_of(e.timestamp), e.kind)
}

/// No escaped character is a line delimiter.
proof fn lemma_escape_char_no_newline(c: char)
    ensures
        forall|i: int| 0 <= i < json_escape_char(c).len() ==> json_escape_char(c)[i] != '\n',
{
    let n = c as u32;
    if n < 32 {
        assert(hex_digit(n as nat / 16) != '\n');
        assert(hex_digit(n as nat % 16) != '\n');
    }
}

/// No escaped text holds a line delimiter.
proof fn lemma_escaped_no_newline(s: Seq<char>)
    ensures
        no_newline(json_escaped(s)),
    decreases s.len(),
{
    if s.len() > 0 {
        lemma_escaped_no_newline(s.drop_last());
        lemma_escape_char_no_newline(s.last());
        let a = json_escaped(s.drop_last());
        let b = json_escape_char(s.last());
        assert forall|i: int| 0 <= i < json_escaped(s).len() implies json_escaped(s)[i] != '\n' by {
            if i < a.len() {
                assert(json_escaped(s)[i] == a[i]);
            } else {
                assert(json_escaped(s)[i] == b[i - a.len()]);
            }
        }
    }
}

/// The text holds no line delimiter.
pub open spec fn no_newline(s: Seq<char>) -> bool {
    forall|i: int| 0 <= i < s.len() ==> s[i] != '\n'
}

/// Joining two texts without a line delimiter gives one without.
proof fn lemma_join_no_newline(a: Seq<char>, b: Seq<char>)
    requires
        no_newline(a),
        no_newline(b),
    ensures
        no_newline(a + b),
{
    assert forall|i: int| 0 <= i < (a + b).len() implies (a + b)[i] != '\n' by {
        if i < a.len() {
            assert((a + b)[i] == a[i]);
        } else {
            assert((a + b)[i] == b[i - a.len()]);
        }
    }
}

/// A quoted JSON string holds no line delimiter.
proof fn lemma_quoted_no_newline(t: Seq<char>)
    ensures
        no_newline(json_string_of(t)),
{
    lemma_escaped_no_newline(t);
    assert(no_newline(seq!['"']));
    lemma_join_no_newline(seq!['"'], json_escaped(t));
    lemma_join_no_newline(seq!['"'] + json_escaped(t), seq!['"']);
}

/// The wire form of an envelope holds no line delimiter, whatever its
/// fields hold, so one envelope followed by a delimiter is exactly one line.
pub proof fn lemma_wire_form_is_one_line(e: EnvelopeView)
    ensures
        no_newline(envelope_json(e)),
{
    reveal_strlit("{\"username\":");
    reveal_strlit(",\"content\":");
    reveal_strlit(",\"timestamp\":");
    reveal_strlit(",\"message_type\":");
    reveal_strlit("\"UserMessage\"");
    reveal_strlit("\"SystemNotification\"");
    reveal_strlit("}");
    let p0 = "{\"username\":"@;
    let p2 = ",\"content\":"@;
    let p4 = ",\"timestamp\":"@;
    let p6 = ",\"message_type\":"@;
    let p8 = "}"@;
    assert(no_newline(p0));
    assert(no_newline(p2));
    assert(no_newline(p4));
    assert(no_newline(p6));
    assert(no_newline(p8));
    assert(no_newline(kind_json(e.kind)));
    lemma_quoted_no_newline(e.username);
    lemma_quoted_no_newline(e.content);
    lemma_quoted_no_newline(e.timestamp);
    let u = json_string_of(e.username);
    let c = json_string_of(e.content);
    let t = json_string_of(e.timestamp);
    lemma_join_no_newline(p0, u);
    lemma_join_no_newline(p0 + u, p2);
    lemma_join_no_newline(p0 + u + p2, c);
    lemma_join_no_newline(p0 + u + p2 + c, p4);
    lemma_join_no_newline(p0 + u + p2 + c + p4, t);
    lemma_join_no_newline(p0 + u + p2 + c + p4 + t, p6);
    lemma_join_no_newline(p0 + u + p2 + c + p4 + t + p6, kind_json(e.kind));
    lemma_join_no_newline(p0 + u + p2 + c + p4 + t + p6 + kind_json(e.kind), p8);
}

/// Relies on `serde_json::to_string` applied to a `str`: it writes the text
/// between quotes, escaping quote, backslash and the control characters
/// below space as `json_escape_char` says, into a `Vec`, which cannot fail.
#[verifier::external_body]
fn quote_json(s: &str) -> (r: String)
    ensures
        r@ == json_string_of(s@),
{
    serde_json::to_string(s).unwrap_or_default()
}

fn kind_text(k: MessageType) -> (r: &'static str)
    ensures
        r@ == kind_json(k),
{
    proof {
        reveal_strlit("\"UserMessage\"");
        reveal_strlit("\"SystemNotification\"");
    }
    match k {
        MessageType::UserMessage => "\"UserMessage\"",
        MessageType::SystemNotification => "\"SystemNotification\"",
    }
}

/// Builds the JSON object of an envelope from the JSON string literals of
/// its username, content and timestamp.
pub fn assemble_json(user: &str, content: &str, stamp: &str, k: MessageType) -> (r: String)
    ensures
        r@ == json_object(user@, content@, stamp@, k),
{
    let mut out = String::from_str("{\"username\":");
    out.append(user);
    out.append(",\"content\":");
    out.append(content);
    out.append(",\"timestamp\":");
    out.append(stamp);
    out.append(",\"message_type\":");
    out.append(kind_text(k));
    out.append("}");
    out
}

impl ChatMessage {
    /// An envelope with the given fields.
    pub fn new(username: &str, content: &str, timestamp: &str, message_type: MessageType) -> (r: ChatMessage)
        ensures
            r@ == (EnvelopeView { username: username@, content: content@, timestamp: timestamp@, kind: message_type }),
    {
        ChatMessage {
            username: String::from_str(username),
            content: String::from_str(content),
            timestamp: String::from_str(timestamp),
            message_type,
        }
    }

    /// An independent copy with the same fields.
    pub fn duplicate(&self) -> (r: ChatMessage)
        ensures
            r@ == self@,
    {
        ChatMessage {
            username: self.username.clone(),
            content: self.content.clone(),
            timestamp: self.timestamp.clone(),
            message_type: self.message_type,
        }
    }

    /// Serializes the envelope as one JSON object.
    pub fn to_json(&self) -> (r: String)
        ensures
            r@ == envelope_json(self@),
    {
        let user = quote_json(self.username.as_str());
        let content = quote_json(self.content.as_str());
        let stamp = quote_json(self.timestamp.as_str());
        assemble_json(user.as_str(), content.as_str(), stamp.as_str(), self.message_type)
    }
}

} // verus!
