//! JSON text of the frames that the gateway sends.

use vstd::prelude::*;
use vstd::string::StringExecFns;

verus! {

/// Lower-case hexadecimal digit of `n` (below 16).
pub open spec fn hex_digit(n: int) -> char {
    seq!['0', '1', '2', '3', '4', '5', '6', '7', '8', '9', 'a', 'b', 'c', 'd', 'e', 'f'][n]
}

/// Decimal digit of `n` (below 10).
pub open spec fn dec_digit(n: int) -> char {
    seq!['0', '1', '2', '3', '4', '5', '6', '7', '8', '9'][n]
}

/// Decimal text of `n`: no sign, no leading zero.
pub open spec fn decimal_of(n: nat) -> Seq<char>
    decreases n,
{
    if n < 10 {
        seq![dec_digit(n as int)]
    } else {
        decimal_of(n / 10) + seq![dec_digit((n % 10) as int)]
    }
}

/// How one character stands inside a JSON string literal.
pub open spec fn escape_char(c: char) -> Seq<char> {
    if c == '"' {
        seq!['\\', '"']
    } else if c == '\\' {
        seq!['\\', '\\']
    } else if c == '\u{8}' {
        seq!['\\', 'b']
    } else if c == '\t' {
        seq!['\\', 't']
    } else if c == '\n' {
        seq!['\\', 'n']
    } else if c == '\u{c}' {
        seq!['\\', 'f']
    } else if c == '\r' {
        seq!['\\', 'r']
    } else if (c as u32) < 0x20 {
        seq!['\\', 'u', '0', '0', hex_digit((c as u32) as int / 16), hex_digit((c as u32) as int % 16)]
    } else {
        seq![c]
    }
}

/// The characters of `s`, each escaped.
pub open spec fn escaped(s: Seq<char>) -> Seq<char>
    decreases s.len(),
{
    if s.len() == 0 {
        Seq::empty()
    } else {
        escaped(s.drop_last()) + escape_char(s.last())
    }
}

/// `s` as a JSON string literal.
pub open spec fn json_quoted(s: Seq<char>) -> Seq<char> {
    seq!['"'] + escaped(s) + seq!['"']
}

/// Relies on `serde_json::to_string` for a `str`: the string quoted, with `"`, `\` and
/// the control characters below U+0020 escaped, as its escape table gives them.
#[verifier::external_body]
fn json_string(s: &str) -> (r: String)
    ensures
        r@ == json_quoted(s@),
{
    match serde_json::to_string(s) {
        Ok(t) => t,
        Err(_) => String::new(),
    }
}

/// Relies on `u64`'s `Display` (through `ToString`): the decimal digits of `n`.
#[verifier::external_body]
pub(crate) fn decimal(n: u64) -> (r: String)
    ensures
        r@ == decimal_of(n as nat),
{
    n.to_string()
}

/// Text of a success envelope.
pub open spec fn response_json(status: Seq<char>, response: Seq<char>) -> Seq<char> {
    "{\"type\":\"ai_response\",\"status\":"@ + json_quoted(status) + ",\"response\":"@
        + json_quoted(response) + "}"@
}

/// Text of an error envelope.
pub open spec fn error_json(status: Seq<char>, error: Seq<char>) -> Seq<char> {
    "{\"type\":\"error\",\"status\":"@ + json_quoted(status) + ",\"error\":"@ + json_quoted(error)
        + "}"@
}

/// Text of an error envelope that ends a connection: it carries a numeric code, and
/// its keys stand in sorted order.
pub open spec fn fatal_error_json(status: Seq<char>, error: Seq<char>, code: u64) -> Seq<char> {
    "{\"code\":"@ + decimal_of(code as nat) + ",\"error\":"@ + json_quoted(error)
        + ",\"status\":"@ + json_quoted(status) + ",\"type\":\"error\"}"@
}

/// Text that announces a new session: its id and the user's id.
pub open spec fn session_info_json(session_id: Seq<char>, user_id: u64) -> Seq<char> {
    "{\"session_id\":"@ + json_quoted(session_id) + ",\"user_id\":"@ + decimal_of(user_id as nat)
        + "}"@
}

/// A frame that the gateway sends.
#[derive(Debug, Clone)]
pub enum CommunicationResponse {
    AIResponse { status: String, response: String },
    Error { status: String, error: String },
}

impl CommunicationResponse {
    /// The JSON text of this envelope.
    pub open spec fn json(&self) -> Seq<char> {
        match self {
            CommunicationResponse::AIResponse { status, response } => response_json(
                status@,
                response@,
            ),
            CommunicationResponse::Error { status, error } => error_json(status@, error@),
        }
    }

    /// Encodes this envelope as JSON text, the `type` tag first.
    pub fn to_json(&self) -> (r: String)
        ensures
            r@ == self.json(),
    {
        match self {
            CommunicationResponse::AIResponse { status, response } => {
                encode_response(status.as_str(), response.as_str())
            },
            CommunicationResponse::Error { status, error } => {
                encode_error(status.as_str(), error.as_str())
            },
        }
    }
}

/// Encodes a success envelope.
pub fn encode_response(status: &str, response: &str) -> (r: String)
    ensures
        r@ == response_json(status@, response@),
{
    let mut r = String::from_str("{\"type\":\"ai_response\",\"status\":");
    let q = json_string(status);
    r.append(q.as_str());
    r.append(",\"response\":");
    let q = json_string(response);
    r.append(q.as_str());
    r.append("}");
    r
}

/// Encodes an error envelope.
pub fn encode_error(status: &str, error: &str) -> (r: String)
    ensures
        r@ == error_json(status@, error@),
{
    let mut r = String::from_str("{\"type\":\"error\",\"status\":");
    let q = json_string(status);
    r.append(q.as_str());
    r.append(",\"error\":");
    let q = json_string(error);
    r.append(q.as_str());
    r.append("}");
    r
}

/// Encodes an error envelope that ends a connection.
pub fn encode_fatal_error(status: &str, error: &str, code: u64) -> (r: String)
    ensures
        r@ == fatal_error_json(status@, error@, code),
{
    let mut r = String::from_str("{\"code\":");
    let d = decimal(code);
    r.append(d.as_str());
    r.append(",\"error\":");
    let q = json_string(error);
    r.append(q.as_str());
    r.append(",\"status\":");
    let q = json_string(status);
    r.append(q.as_str());
    r.append(",\"type\":\"error\"}");
    r
}

/// Encodes the announcement of a new session.
pub fn encode_session_info(session_id: &str, user_id: u64) -> (r: String)
    ensures
        r@ == session_info_json(session_id@, user_id),
{
    let mut r = String::from_str("{\"session_id\":");
    let q = json_string(session_id);
    r.append(q.as_str());
    r.append(",\"user_id\":");
    let d = decimal(user_id);
    r.append(d.as_str());
    r.append("}");
    r
}

} // verus!
