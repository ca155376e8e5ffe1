use vstd::prelude::*;
use vstd::string::*;

use crate::phone::{format_phone, formatted_phone};
use crate::text::{has_prefix, joined, owned, same_str, starts_with_str};

verus! {

/// A request to send a text message.
pub struct SendRequest {
    pub to: String,
    pub message: String,
}

/// The answer to a send request.
pub struct SendResponse {
    pub success: bool,
    pub message_id: String,
}

/// The handles the account is registered under.
pub struct HandlesResponse {
    pub handles: Vec<String>,
}

/// The service's health.
pub struct HealthResponse {
    pub status: String,
}

/// An error answered to an HTTP client, with its message.
pub struct AppError(pub String);

/// The JSON text of a string value.
pub uninterp spec fn json_string_of(s: Seq<char>) -> Seq<char>;

/// Relies on serde_json's `Display` for `Value::String`: the compact JSON
/// string literal of `s`, a function of its characters alone.
#[verifier::external_body]
fn json_string(s: &str) -> (r: String)
    ensures
        r@ == json_string_of(s@),
{
    serde_json::Value::String(s.to_string()).to_string()
}

pub open spec fn error_body_of(quoted: Seq<char>) -> Seq<char> {
    seq!['{', '"', 'e', 'r', 'r', 'o', 'r', '"', ':'] + quoted + seq!['}']
}

/// The JSON object `{"error":<quoted>}`, given the JSON string literal of the
/// message.
pub fn error_body_from_quoted(quoted: &str) -> (r: String)
    ensures
        r@ == error_body_of(quoted@),
{
    proof {
        reveal_strlit("{\"error\":");
        reveal_strlit("}");
    }
    let head = joined("{\"error\":", quoted);
    let r = joined(head.as_str(), "}");
    assert(r@ =~= error_body_of(quoted@));
    r
}

/// The status of every error response.
pub const INTERNAL_SERVER_ERROR: u16 = 500;

impl AppError {
    pub fn new(message: String) -> (r: AppError)
        ensures
            r.0@ == message@,
    {
        AppError(message)
    }

    /// The HTTP status of the response.
    pub fn status(&self) -> (r: u16)
        ensures
            r == INTERNAL_SERVER_ERROR,
    {
        INTERNAL_SERVER_ERROR
    }

    /// The JSON body of the response: `{"error":"<message>"}`.
    pub fn response_body(&self) -> (r: String)
        ensures
            r@ == error_body_of(json_string_of(self.0@)),
    {
        let quoted = json_string(self.0.as_str());
        error_body_from_quoted(quoted.as_str())
    }
}

pub open spec fn no_handles_message() -> Seq<char> {
    seq!['N', 'o', ' ', 'r', 'e', 'g', 'i', 's', 't', 'e', 'r', 'e', 'd', ' ', 'h', 'a', 'n', 'd', 'l', 'e', 's']
}

/// The handle messages are sent from: the first registered one.
pub fn choose_sender(handles: &Vec<String>) -> (r: Result<String, AppError>)
    ensures
        handles@.len() > 0 <==> r is Ok,
        r matches Ok(s) ==> s@ == handles@[0]@,
        r matches Err(e) ==> e.0@ == no_handles_message(),
{
    if handles.len() == 0 {
        proof {
            reveal_strlit("No registered handles");
        }
        Err(AppError(owned("No registered handles")))
    } else {
        Ok(handles[0].clone())
    }
}

/// The participants of a one-to-one conversation: the sender, then the
/// recipient as a `tel:` URI.
pub fn participants(sender: &String, to: &str) -> (r: Vec<String>)
    ensures
        r@.len() == 2,
        r@[0]@ == sender@,
        r@[1]@ == formatted_phone(to@),
{
    let mut r: Vec<String> = Vec::new();
    r.push(sender.clone());
    r.push(format_phone(to));
    r
}

/// The answer to a send request that was handed to the connection.
pub fn send_response(message_id: String) -> (r: SendResponse)
    ensures
        r.success,
        r.message_id@ == message_id@,
{
    SendResponse { success: true, message_id }
}

pub open spec fn health_status_of(n_handles: nat) -> Seq<char> {
    if n_handles == 0 {
        seq!['n', 'o', '_', 'h', 'a', 'n', 'd', 'l', 'e', 's']
    } else {
        seq!['o', 'k']
    }
}

/// `ok` when the account has a registered handle, else `no_handles`.
pub fn health_response(handles: &Vec<String>) -> (r: HealthResponse)
    ensures
        r.status@ == health_status_of(handles@.len()),
{
    proof {
        reveal_strlit("no_handles");
        reveal_strlit("ok");
    }
    if handles.len() == 0 {
        HealthResponse { status: owned("no_handles") }
    } else {
        HealthResponse { status: owned("ok") }
    }
}

pub open spec fn bearer_prefix() -> Seq<char> {
    seq!['B', 'e', 'a', 'r', 'e', 'r', ' ']
}

/// The token of an `authorization` header: the header without a leading
/// `Bearer `, or the header as it is.
pub open spec fn token_of(header: Seq<char>) -> Seq<char> {
    if has_prefix(header, bearer_prefix()) {
        header.subrange(bearer_prefix().len() as int, header.len() as int)
    } else {
        header
    }
}

/// A request passes when no API key is configured, or when its token equals
/// the key. A missing header counts as empty.
pub open spec fn authorized(api_key: Seq<char>, header: Option<Seq<char>>) -> bool {
    api_key.len() == 0 || token_of(
        match header {
            Some(h) => h,
            None => seq![],
        },
    ) == api_key
}

/// Whether a request with the given `authorization` header may pass.
pub fn is_authorized(api_key: &str, authorization: Option<&str>) -> (r: bool)
    ensures
        r == authorized(api_key@, match authorization {
            Some(h) => Some(h@),
            None => None,
        }),
{
    proof {
        reveal_strlit("Bearer ");
        reveal_strlit("");
        assert("Bearer "@ =~= bearer_prefix());
    }
    if api_key.unicode_len() == 0 {
        return true;
    }
    let header: &str = match authorization {
        Some(h) => h,
        None => "",
    };
    assert(header@ == (match authorization {
        Some(h) => h@,
        None => Seq::<char>::empty(),
    })) by {
        assert(""@ =~= Seq::<char>::empty());
    }
    if starts_with_str(header, "Bearer ") {
        let token = header.substring_char(7, header.unicode_len());
        same_str(token, api_key)
    } else {
        same_str(header, api_key)
    }
}

} // verus!
