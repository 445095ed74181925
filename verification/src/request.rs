//! The pieces of an HTTP request that the `http` and `bytes` crates provide:
//! URIs, methods and bodies.

use bytes::Bytes;
use http::method::InvalidMethod;
use http::uri::InvalidUri;
use http::{Method, Uri};
use vstd::prelude::*;
use vstd::utf8::encode_utf8;

verus! {

#[verifier::external_type_specification]
#[verifier::external_body]
pub struct ExUri(Uri);

#[verifier::external_type_specification]
#[verifier::external_body]
pub struct ExInvalidUri(InvalidUri);

#[verifier::external_type_specification]
#[verifier::external_body]
pub struct ExMethod(Method);

#[verifier::external_type_specification]
#[verifier::external_body]
pub struct ExInvalidMethod(InvalidMethod);

#[verifier::external_type_specification]
#[verifier::external_body]
pub struct ExBytes(Bytes);

/// `Uri::clone`; nothing is stated of the copy.
pub assume_specification[ <Uri as Clone>::clone ](u: &Uri) -> Uri;

/// `Method::clone`; nothing is stated of the copy.
pub assume_specification[ <Method as Clone>::clone ](m: &Method) -> Method;

/// The URI that `Uri::from_str` reads from the text `s`, or `None` where it
/// refuses the text.
pub uninterp spec fn uri_from_str(s: Seq<char>) -> Option<Uri>;

/// `Uri::from_str`: reads a URI. What it accepts is the `http` crate's URI
/// grammar, named by `uri_from_str` and not written out here.
#[verifier::external_body]
pub(crate) fn parse_uri(s: &str) -> (r: Result<Uri, InvalidUri>)
    ensures
        match r {
            Ok(u) => uri_from_str(s@) == Some(u),
            Err(_) => uri_from_str(s@) is None,
        },
{
    s.parse::<Uri>()
}

/// The characters that an HTTP method is made of (RFC 9110 `tchar`).
pub open spec fn is_method_char(c: char) -> bool {
    ||| ('0' <= c && c <= '9')
    ||| ('A' <= c && c <= 'Z')
    ||| ('a' <= c && c <= 'z')
    ||| c == '!' || c == '#' || c == '$' || c == '%' || c == '&' || c == '\''
    ||| c == '*' || c == '+' || c == '-' || c == '.' || c == '^' || c == '_'
    ||| c == '`' || c == '|' || c == '~'
}

/// Whether `s` is a method that `Method::from_str` accepts: one or more
/// method characters.
pub open spec fn is_method_text(s: Seq<char>) -> bool {
    s.len() > 0 && forall|i: int| 0 <= i < s.len() ==> is_method_char(#[trigger] s[i])
}

/// The method that `Method::from_str` reads from `s`, or `None` where it
/// refuses the text.
pub uninterp spec fn method_from_str(s: Seq<char>) -> Option<Method>;

/// `Method::from_str`: accepts exactly the non-empty texts made of method
/// characters (standard and extension methods alike).
#[verifier::external_body]
pub(crate) fn parse_method(s: &str) -> (r: Result<Method, InvalidMethod>)
    ensures
        r is Ok <==> is_method_text(s@),
        match r {
            Ok(m) => method_from_str(s@) == Some(m),
            Err(_) => method_from_str(s@) is None,
        },
{
    s.parse::<Method>()
}

/// The bytes that a `Bytes` buffer holds.
pub uninterp spec fn bytes_view(b: Bytes) -> Seq<u8>;

/// `Bytes::clone`: a handle to the same bytes.
pub assume_specification[ <Bytes as Clone>::clone ](b: &Bytes) -> (r: Bytes)
    ensures
        bytes_view(r) == bytes_view(*b),
;

/// `Bytes::from(String)`: the UTF-8 encoding of the text.
#[verifier::external_body]
pub(crate) fn bytes_from_string(s: String) -> (b: Bytes)
    ensures
        bytes_view(b) == encode_utf8(s@),
{
    Bytes::from(s)
}

/// `Bytes::from(Vec<u8>)`: the same bytes.
#[verifier::external_body]
pub(crate) fn bytes_from_vec(v: Vec<u8>) -> (b: Bytes)
    ensures
        bytes_view(b) == v@,
{
    Bytes::from(v)
}

} // verus!
