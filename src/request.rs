//! Requests to the server: a method, a URL and an optional JSON body.
use vstd::prelude::*;

use crate::address::ServerAddress;
use crate::utils::{command_url, process_url};
use crate::KenkuCommand;

verus! {

/// The HTTP methods that the API uses.
#[derive(Clone, Copy, Debug, PartialEq, Eq)]
pub enum HttpMethod {
    Get,
    Put,
    Post,
}

/// A request ready to be sent: the body, where there is one, is JSON text.
#[derive(Clone, Debug, PartialEq, Eq)]
pub struct Request {
    pub method: HttpMethod,
    pub url: String,
    pub body: Option<String>,
}

/// The method that a command is sent with.
pub open spec fn command_method(command: KenkuCommand) -> HttpMethod {
    match command {
        KenkuCommand::KenkuGet(_) => HttpMethod::Get,
        KenkuCommand::KenkuPut(_) => HttpMethod::Put,
        KenkuCommand::KenkuPost(_) => HttpMethod::Post,
    }
}

/// The text of an optional string.
pub open spec fn text_of(s: Option<String>) -> Option<Seq<char>> {
    match s {
        Some(t) => Some(t@),
        None => None,
    }
}

/// `r` sends `command` to the server at `address`, with `body`.
pub open spec fn sends(
    r: Request,
    command: KenkuCommand,
    address: ServerAddress,
    body: Option<Seq<char>>,
) -> bool {
    &&& r.method == command_method(command)
    &&& r.url@ == command_url(command, address)
    &&& text_of(r.body) == body
}

impl KenkuCommand {
    /// The method that this command is sent with.
    pub fn method(&self) -> (r: HttpMethod)
        ensures
            r == command_method(*self),
    {
        match self {
            KenkuCommand::KenkuGet(_) => HttpMethod::Get,
            KenkuCommand::KenkuPut(_) => HttpMethod::Put,
            KenkuCommand::KenkuPost(_) => HttpMethod::Post,
        }
    }
}

impl Request {
    /// The request that sends `command` to the server at `address`.
    pub fn new(command: &KenkuCommand, address: ServerAddress, body: Option<String>) -> (r:
        Request)
        ensures
            sends(r, *command, address, text_of(body)),
    {
        Request { method: command.method(), url: process_url(command, address), body }
    }
}

/// The compact JSON text of the string `s`: a quoted literal, with the
/// characters that JSON cannot hold in one escaped.
pub uninterp spec fn json_string_text(s: Seq<char>) -> Seq<char>;

/// Relies on serde_json's `Display` for `Value::String`, which writes the
/// compact JSON text of the string; the text depends on `s` alone.
#[verifier::external_body]
fn json_string(s: &str) -> (r: String)
    ensures
        r@ == json_string_text(s@),
{
    serde_json::Value::String(s.to_string()).to_string()
}

/// The JSON text of a boolean.
pub open spec fn bool_text(b: bool) -> Seq<char> {
    if b {
        "true"@
    } else {
        "false"@
    }
}

/// A JSON object of one member, `key`, whose value has the text `value`.
pub open spec fn json_member(key: Seq<char>, value: Seq<char>) -> Seq<char> {
    "{\""@ + key + "\":"@ + value + "}"@
}

/// The JSON object of one member `key` whose value is already JSON text.
pub(crate) fn member_body(key: &str, value: &str) -> (r: String)
    ensures
        r@ == json_member(key@, value@),
{
    String::from_str("{\"").concat(key).concat("\":").concat(value).concat("}")
}

/// The body `{"id":<id>}` that names a track or a sound.
pub fn id_body(id: &str) -> (r: String)
    ensures
        r@ == json_member("id"@, json_string_text(id@)),
{
    let value = json_string(id);
    member_body("id", value.as_str())
}

/// The body `{"<key>":true}` or `{"<key>":false}`.
pub fn flag_body(key: &str, value: bool) -> (r: String)
    ensures
        r@ == json_member(key@, bool_text(value)),
{
    let text = if value {
        "true"
    } else {
        "false"
    };
    member_body(key, text)
}

} // verus!
