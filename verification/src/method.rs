//! HTTP method normalisation: an empty method becomes GET, any valid token
//! is used verbatim, and anything else is rejected with `BadMethod`.

use vstd::prelude::*;
use crate::errors::{BridgeError, ErrorKind};

verus! {

/// The RFC 9110 `tchar` set: the characters a method token may contain.
pub open spec fn is_tchar(c: char) -> bool {
    ||| c == '!' || c == '#' || c == '$' || c == '%' || c == '&' || c == '\''
    ||| c == '*' || c == '+' || c == '-' || c == '.' || c == '^' || c == '_'
    ||| c == '`' || c == '|' || c == '~'
    ||| '0' <= c && c <= '9'
    ||| 'A' <= c && c <= 'Z'
    ||| 'a' <= c && c <= 'z'
}

/// A valid method token: nonempty, every character a `tchar`.
pub open spec fn is_method_token(s: Seq<char>) -> bool {
    s.len() > 0 && (forall|i: int| 0 <= i < s.len() ==> is_tchar(#[trigger] s[i]))
}

/// A method string the pipeline accepts: either empty (normalised to GET)
/// or a valid token.
pub open spec fn method_acceptable(s: Seq<char>) -> bool {
    s.len() == 0 || is_method_token(s)
}

/// What normalisation yields on an acceptable method string.
pub open spec fn normalized_method(s: Seq<char>) -> Seq<char> {
    if s.len() == 0 {
        "GET"@
    } else {
        s
    }
}

/// Relies on `http::Method::from_bytes`, which returns `Ok` exactly when the
/// input is nonempty and every byte is an RFC 9110 `tchar` (every `tchar` is
/// ASCII, so the byte and character readings agree).
#[verifier::external_body]
fn method_token_valid(s: &str) -> (r: bool)
    ensures
        r == is_method_token(s@),
{
    http::Method::from_bytes(s.as_bytes()).is_ok()
}

/// Normalise a request method: empty becomes `GET`; a valid token is kept
/// verbatim; anything else is a `BadMethod` error.
pub fn normalize_method(method: &str) -> (r: Result<String, BridgeError>)
    ensures
        r is Ok <==> method_acceptable(method@),
        r is Ok ==> r->Ok_0@ == normalized_method(method@),
        r is Err ==> r->Err_0.kind == ErrorKind::BadMethod,
{
    if method.is_empty() {
        Ok(String::from_str("GET"))
    } else if method_token_valid(method) {
        Ok(method.to_owned())
    } else {
        Err(BridgeError::new(
            ErrorKind::BadMethod,
            String::from_str("unsupported HTTP method"),
        ))
    }
}

} // verus!
