//! One request/response exchange with a worker over its socket endpoint.
//!
//! A request is one JSON object on one line, carrying a correlation id and an
//! action; the reply is one JSON object on one line, whose id must match.
//! The caller opens, writes, reads and closes; this module frames the
//! request, classifies what went wrong on the way, and checks the reply.
use vstd::prelude::*;
use vstd::string::StringExecFns;
use vstd::string::StringSliceAdditionalSpecFns;

verus! {

#[verifier::external_type_specification]
#[verifier::external_body]
pub struct ExValue(serde_json::Value);

/// The value of one action-specific request field.
#[derive(Debug, Clone)]
pub enum Param {
    Text(String),
    Flag(bool),
}

/// A request: correlation id, action name and action-specific fields, in
/// the order they are written.
#[derive(Debug, Clone)]
pub struct Envelope {
    pub id: String,
    pub action: String,
    pub params: Vec<(String, Param)>,
}

/// A reply: whether the action succeeded, its payload, and its error
/// message. The payload's shape depends on the action and is not checked.
#[derive(Debug, Clone)]
pub struct Response {
    pub success: bool,
    pub data: Option<serde_json::Value>,
    pub error: Option<String>,
}

/// The three ways an exchange can fail.
#[derive(Debug, Clone, Copy, PartialEq, Eq, Structural)]
pub enum ChannelError {
    /// No worker accepted the connection, or it went away.
    ConnectionRefused,
    /// The worker did not answer in time.
    TransportTimeout,
    /// The reply was no well-formed reply to this request.
    ProtocolError,
}

/// Step of the exchange at which an I/O operation failed.
#[derive(Debug, Clone, Copy, PartialEq, Eq, Structural)]
pub enum Stage {
    Connect,
    Write,
    Read,
}

/// Kind of an I/O failure, as far as this module tells them apart.
#[derive(Debug, Clone, Copy, PartialEq, Eq, Structural)]
pub enum IoFailure {
    /// The operation's time limit ran out.
    TimedOut,
    /// Any other failure.
    Other,
}

/// The fields of a reply, as read from its JSON object (`None` where a field
/// is absent or of another type).
#[derive(Debug, Clone)]
pub struct ReplyFields {
    pub id: Option<String>,
    pub success: Option<bool>,
    pub error: Option<String>,
    pub data: Option<serde_json::Value>,
}

/// Lower-case hexadecimal digit of `n`, for `0 <= n < 16`.
pub open spec fn hex_digit(n: int) -> char {
    seq!['0', '1', '2', '3', '4', '5', '6', '7', '8', '9', 'a', 'b', 'c', 'd', 'e', 'f'][n]
}

/// How one character is written inside a JSON string: quote and backslash
/// are escaped, the control characters with a short escape take it, the
/// other control characters are written as `\u00XX`, the rest as they are.
pub open spec fn escaped_char(c: char) -> Seq<char> {
    if c == '"' {
        seq!['\\', '"']
    } else if c == '\\' {
        seq!['\\', '\\']
    } else if c == '\u{8}' {
        seq!['\\', 'b']
    } else if c == '\t' {
        seq!['\\', 't']
    } else if c == '\n' {
        seq!['\\', 'n']
    } else if c == '\u{c}' {
        seq!['\\', 'f']
    } else if c == '\r' {
        seq!['\\', 'r']
    } else if (c as u32) < 0x20 {
        seq!['\\', 'u', '0', '0', hex_digit((c as u32 / 16) as int), hex_digit((c as u32 % 16) as int)]
    } else {
        seq![c]
    }
}

/// The characters of `s`, each written as inside a JSON string.
pub open spec fn escaped(s: Seq<char>) -> Seq<char>
    decreases s.len(),
{
    if s.len() == 0 {
        seq![]
    } else {
        escaped(s.drop_last()) + escaped_char(s.last())
    }
}

/// The JSON string literal for `s`.
pub open spec fn json_quoted(s: Seq<char>) -> Seq<char> {
    seq!['"'] + escaped(s) + seq!['"']
}

/// Whether `serde_json` reads `s` as one JSON value.
pub uninterp spec fn json_parses(s: Seq<char>) -> bool;

/// Relies on serde_json::to_string on a `str`: the quoted JSON string for
/// `s`, escaped by serde_json's escape table. Writing a `str` into a
/// `Vec<u8>` does not fail.
#[verifier::external_body]
fn quote_json(s: &str) -> (r: String)
    ensures
        r@ == json_quoted(s@),
{
    serde_json::to_string(s).unwrap_or_default()
}

/// The JSON value that `serde_json` reads from `s`, where it reads one.
pub uninterp spec fn json_value_of(s: Seq<char>) -> serde_json::Value;

/// The member `key` of a JSON object; `None` for a missing member or a value
/// that is no object.
pub uninterp spec fn json_member_of(v: serde_json::Value, key: Seq<char>) -> Option<serde_json::Value>;

/// The text of a JSON string; `None` for any other value.
pub uninterp spec fn json_text_of(v: serde_json::Value) -> Option<Seq<char>>;

/// The value of a JSON boolean; `None` for any other value.
pub uninterp spec fn json_flag_of(v: serde_json::Value) -> Option<bool>;

/// The view of an optional string.
pub open spec fn text_view(o: Option<String>) -> Option<Seq<char>> {
    match o {
        Some(t) => Some(t@),
        None => None,
    }
}

/// Relies on serde_json::from_str into a `Value`: `Some` of the value read
/// when `s` holds one JSON value.
#[verifier::external_body]
fn parse_json(s: &str) -> (r: Option<serde_json::Value>)
    ensures
        r is Some <==> json_parses(s@),
        r is Some ==> r->Some_0 == json_value_of(s@),
{
    serde_json::from_str::<serde_json::Value>(s).ok()
}

/// Relies on serde_json::Value::get: the member `key` of an object.
#[verifier::external_body]
pub(crate) fn json_member<'a>(v: &'a serde_json::Value, key: &str) -> (r: Option<&'a serde_json::Value>)
    ensures
        json_member_of(*v, key@) == match r {
            Some(x) => Some(*x),
            None => None,
        },
{
    v.get(key)
}

/// Relies on serde_json::Value::as_str: the text of a JSON string.
#[verifier::external_body]
fn json_text(v: &serde_json::Value) -> (r: Option<String>)
    ensures
        text_view(r) == json_text_of(*v),
{
    v.as_str().map(|s| s.to_string())
}

/// Relies on serde_json::Value::as_bool: the value of a JSON boolean.
#[verifier::external_body]
fn json_flag(v: &serde_json::Value) -> (r: Option<bool>)
    ensures
        r == json_flag_of(*v),
{
    v.as_bool()
}

/// Relies on Clone for serde_json::Value: an equal copy of `v`.
#[verifier::external_body]
fn json_copy(v: &serde_json::Value) -> (r: serde_json::Value)
    ensures
        r == *v,
{
    v.clone()
}

/// Member `key` of the JSON object on line `line`.
pub open spec fn reply_member(line: Seq<char>, key: Seq<char>) -> Option<serde_json::Value> {
    json_member_of(json_value_of(line), key)
}

/// The string member `key` of the reply on line `line`, if it has one.
pub open spec fn reply_text(line: Seq<char>, key: Seq<char>) -> Option<Seq<char>> {
    match reply_member(line, key) {
        Some(x) => json_text_of(x),
        None => None,
    }
}

/// The boolean member `success` of the reply on line `line`, if it has one.
pub open spec fn reply_flag(line: Seq<char>) -> Option<bool> {
    match reply_member(line, "success"@) {
        Some(x) => json_flag_of(x),
        None => None,
    }
}

/// Text of one field value.
pub open spec fn param_text(p: Param) -> Seq<char> {
    match p {
        Param::Text(s) => json_quoted(s@),
        Param::Flag(b) => if b {
            "true"@
        } else {
            "false"@
        },
    }
}

/// Text of the action-specific fields, each preceded by a comma.
pub open spec fn params_text(ps: Seq<(String, Param)>) -> Seq<char>
    decreases ps.len(),
{
    if ps.len() == 0 {
        seq![]
    } else {
        params_text(ps.drop_last()) + ","@ + json_quoted(ps.last().0@) + ":"@ + param_text(
            ps.last().1,
        )
    }
}

/// The line that carries request `e`: a JSON object with `id` first,
/// `action` second, then the fields, ended by a newline.
pub open spec fn request_text(e: Envelope) -> Seq<char> {
    "{\"id\":"@ + json_quoted(e.id@) + ",\"action\":"@ + json_quoted(e.action@) + params_text(
        e.params@,
    ) + "}\n"@
}

/// Writes request `e` as one line of JSON.
pub fn encode_request(e: &Envelope) -> (r: String)
    ensures
        r@ == request_text(*e),
{
    let mut r = "{\"id\":".to_owned();
    let id = quote_json(e.id.as_str());
    r.append(id.as_str());
    r.append(",\"action\":");
    let action = quote_json(e.action.as_str());
    r.append(action.as_str());
    let ghost head = r@;
    assert(e.params@.subrange(0, 0) =~= Seq::<(String, Param)>::empty());
    let mut i: usize = 0;
    while i < e.params.len()
        invariant
            i <= e.params@.len(),
            head == "{\"id\":"@ + json_quoted(e.id@) + ",\"action\":"@ + json_quoted(e.action@),
            r@ == head + params_text(e.params@.subrange(0, i as int)),
        decreases e.params@.len() - i,
    {
        let (key, value) = &e.params[i];
        r.append(",");
        let k = quote_json(key.as_str());
        r.append(k.as_str());
        r.append(":");
        match value {
            Param::Text(s) => {
                let v = quote_json(s.as_str());
                r.append(v.as_str());
            },
            Param::Flag(b) => {
                if *b {
                    r.append("true");
                } else {
                    r.append("false");
                }
            },
        }
        let ghost done = e.params@.subrange(0, i + 1);
        assert(done.drop_last() =~= e.params@.subrange(0, i as int));
        assert(done.last() == e.params@[i as int]);
        assert(r@ =~= head + params_text(done));
        i = i + 1;
    }
    assert(e.params@.subrange(0, i as int) =~= e.params@);
    r.append("}\n");
    r
}

/// How a failed I/O operation is reported: a failed connection means no
/// worker listens; a time limit that runs out while writing or reading is a
/// timeout; any other failure while writing or reading means the worker went
/// away.
pub fn transport_error(stage: Stage, failure: IoFailure) -> (r: ChannelError)
    ensures
        r == match stage {
            Stage::Connect => ChannelError::ConnectionRefused,
            _ => match failure {
                IoFailure::TimedOut => ChannelError::TransportTimeout,
                IoFailure::Other => ChannelError::ConnectionRefused,
            },
        },
{
    match stage {
        Stage::Connect => ChannelError::ConnectionRefused,
        _ => match failure {
            IoFailure::TimedOut => ChannelError::TransportTimeout,
            IoFailure::Other => ChannelError::ConnectionRefused,
        },
    }
}

/// The reply's fields are those of a reply to request `expected_id`: its id
/// matches, and it says whether the action succeeded.
pub open spec fn answers(expected_id: Seq<char>, f: ReplyFields) -> bool {
    &&& f.id is Some
    &&& f.id->Some_0@ == expected_id
    &&& f.success is Some
}

/// Checks the fields of a reply against the request's correlation id. A
/// reply with another id, or with no success flag, is a `ProtocolError`,
/// however well the rest of it reads.
pub fn check_reply(expected_id: &str, f: ReplyFields) -> (r: Result<Response, ChannelError>)
    ensures
        !answers(expected_id@, f) ==> r == Err::<Response, ChannelError>(ChannelError::ProtocolError),
        answers(expected_id@, f) ==> r is Ok && r->Ok_0 == (Response {
            success: f.success->Some_0,
            data: f.data,
            error: f.error,
        }),
{
    let matches_id = match &f.id {
        Some(id) => text_eq(id.as_str(), expected_id),
        None => false,
    };
    if !matches_id {
        return Err(ChannelError::ProtocolError);
    }
    match f.success {
        None => Err(ChannelError::ProtocolError),
        Some(success) => Ok(Response { success, data: f.data, error: f.error }),
    }
}

/// Whether two strings hold the same characters.
pub fn text_eq(a: &str, b: &str) -> (r: bool)
    ensures
        r == (a@ == b@),
{
    let x = a.as_bytes();
    let y = b.as_bytes();
    assert(x@ == vstd::utf8::encode_utf8(a@));
    assert(y@ == vstd::utf8::encode_utf8(b@));
    if x.len() != y.len() {
        return false;
    }
    let mut i: usize = 0;
    while i < x.len()
        invariant
            x@.len() == y@.len(),
            x@ == vstd::utf8::encode_utf8(a@),
            y@ == vstd::utf8::encode_utf8(b@),
            i <= x@.len(),
            forall|k: int| 0 <= k < i ==> x@[k] == y@[k],
        decreases x@.len() - i,
    {
        if x[i] != y[i] {
            return false;
        }
        i = i + 1;
    }
    assert(x@ =~= y@);
    proof {
        vstd::utf8::encode_utf8_decode_utf8(a@);
        vstd::utf8::encode_utf8_decode_utf8(b@);
    }
    true
}

/// Reads the reply line to request `expected_id`. The reply is accepted
/// exactly when the line is JSON whose `id` is the string `expected_id` and
/// whose `success` is a boolean; anything else is a `ProtocolError`, however
/// well the rest of it reads.
pub fn decode_reply(expected_id: &str, line: &str) -> (r: Result<Response, ChannelError>)
    ensures
        r is Ok <==> (json_parses(line@) && reply_text(line@, "id"@) == Some(expected_id@)
            && reply_flag(line@) is Some),
        r is Err ==> r->Err_0 == ChannelError::ProtocolError,
        r is Ok ==> {
            &&& r->Ok_0.success == reply_flag(line@)->Some_0
            &&& text_view(r->Ok_0.error) == reply_text(line@, "error"@)
            &&& r->Ok_0.data == reply_member(line@, "data"@)
        },
{
    let v = match parse_json(line) {
        None => return Err(ChannelError::ProtocolError),
        Some(v) => v,
    };
    let id = match json_member(&v, "id") {
        Some(x) => json_text(x),
        None => None,
    };
    let success = match json_member(&v, "success") {
        Some(x) => json_flag(x),
        None => None,
    };
    let error = match json_member(&v, "error") {
        Some(x) => json_text(x),
        None => None,
    };
    let data = match json_member(&v, "data") {
        Some(x) => Some(json_copy(x)),
        None => None,
    };
    check_reply(expected_id, ReplyFields { id, success, error, data })
}

} // verus!
