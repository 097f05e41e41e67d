//! The decoding policy shared by every source that fetches tokens over HTTP:
//! a body that could not be buffered, a server error and a malformed payload
//! are three different failures. Buffering the body is the caller's part; it
//! hands over the status code and the bytes.
use crate::error::Error;
use crate::text::{lossy_string, lossy_text};
use crate::token::{json_token, Timestamp, Token, TokenView};
use vstd::prelude::*;
use vstd::string::StringExecFns;

verus! {

/// The decimal digit `d`.
pub open spec fn digit_char(d: nat) -> char
    recommends
        d < 10,
{
    "0123456789"@[d as int]
}

/// The decimal numeral of `n`, without leading zeros.
pub open spec fn decimal(n: nat) -> Seq<char>
    decreases n,
{
    if n < 10 {
        seq![digit_char(n)]
    } else {
        decimal(n / 10).push(digit_char(n % 10))
    }
}

/// How `hyper::StatusCode` displays the status `status`: its code and its
/// canonical reason phrase.
pub uninterp spec fn status_line(status: u16) -> Seq<char>;

/// Relies on `hyper::StatusCode::from_u16` and the `Display` of `StatusCode`,
/// which writes the code in decimal, a space, and the canonical reason phrase
/// (or `<unknown status code>`). `from_u16` accepts exactly 100..=999.
#[verifier::external_body]
fn status_line_text(status: u16) -> (r: String)
    requires
        100 <= status <= 999,
    ensures
        r@ == status_line(status),
        exists|reason: Seq<char>| r@ == decimal(status as nat) + " "@ + reason,
{
    match hyper::StatusCode::from_u16(status) {
        Ok(code) => code.to_string(),
        Err(_) => String::new(),
    }
}

/// The diagnostic for a server that answered `status` with the text `body`.
pub open spec fn server_error_message(status: u16, body: Seq<char>) -> Seq<char> {
    "Server responded with error "@ + status_line(status) + ": "@ + body
}

/// Whether an HTTP status code reports success.
pub open spec fn is_success(status: u16) -> bool {
    200 <= status < 300
}

/// The outcome of a response whose status is `status` (a valid HTTP status code)
/// and whose buffered body is `body`: a non-success status gives
/// `ServerUnavailable` with the status line and the body's text; otherwise the
/// body is read as a token payload at `now`.
pub fn decode_response(status: u16, body: &[u8], now: Timestamp) -> (r: Result<Token, Error>)
    requires
        100 <= status <= 999,
    ensures
        !is_success(status) ==> r is Err && r->Err_0 is ServerUnavailable
            && r->Err_0->ServerUnavailable_0@ == server_error_message(status, lossy_text(body@)),
        is_success(status) ==> match json_token(body@, now) {
            Some(t) => r is Ok && r->Ok_0@ == t,
            None => r == Err::<Token, Error>(Error::DeserializeFailed),
        },
{
    if !(200 <= status && status < 300) {
        let text = lossy_string(body);
        let line = status_line_text(status);
        let mut message = <String as StringExecFns>::from_str("Server responded with error ");
        message.append(line.as_str());
        message.append(": ");
        message.append(text.as_str());
        return Err(Error::ServerUnavailable(message));
    }
    Token::from_json_at(body, now)
}

} // verus!
