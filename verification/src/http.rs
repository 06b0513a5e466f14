//! Requests and replies as plain values, and the encoding of text inside a URL.

use vstd::prelude::*;
use vstd::string::StringSliceAdditionalSpecFns;

verus! {

/// The method of a request.
#[derive(Debug, Clone, Copy, PartialEq, Eq, Structural)]
pub enum Method {
    Get,
    Post,
}

/// A request that the caller is to send: where, with which headers in which order,
/// and with which body.
#[derive(Debug, Clone, PartialEq)]
pub struct Request {
    pub method: Method,
    pub url: String,
    pub headers: Vec<(String, String)>,
    pub body: Option<String>,
}

/// `Request` as a mathematical value: every text a sequence of characters.
pub struct RequestView {
    pub method: Method,
    pub url: Seq<char>,
    pub headers: Seq<(Seq<char>, Seq<char>)>,
    pub body: Option<Seq<char>>,
}

impl DeepView for Request {
    type V = RequestView;

    open spec fn deep_view(&self) -> RequestView {
        RequestView {
            method: self.method,
            url: self.url@,
            headers: self.headers.deep_view(),
            body: self.body.deep_view(),
        }
    }
}

/// What came back for a request: the status line and the body.
#[derive(Debug, Clone, PartialEq)]
pub struct Reply {
    pub status: u16,
    pub status_text: String,
    pub body: String,
}

/// A status in the range 200 to 299 is a success; every other one is a failure.
pub open spec fn is_success(status: u16) -> bool {
    200 <= status <= 299
}

impl Reply {
    /// Whether the reply reports success.
    pub fn ok(&self) -> (r: bool)
        ensures
            r == is_success(self.status),
    {
        200 <= self.status && self.status <= 299
    }
}

/// The bytes that stand for themselves in an encoded URL component: ASCII letters,
/// digits, and `-`, `.`, `_`, `~`.
pub open spec fn is_unreserved(b: u8) -> bool {
    ||| 0x30 <= b <= 0x39
    ||| 0x41 <= b <= 0x5a
    ||| 0x61 <= b <= 0x7a
    ||| b == 0x2d
    ||| b == 0x2e
    ||| b == 0x5f
    ||| b == 0x7e
}

/// The upper-case hexadecimal digit for a value below 16.
pub open spec fn hex_digit(d: u8) -> char {
    if d < 10 {
        (0x30 + d) as char
    } else {
        (0x41 + d - 10) as char
    }
}

/// One byte in an encoded URL component: itself, or `%` and its two hex digits.
pub open spec fn encoded_byte(b: u8) -> Seq<char> {
    if is_unreserved(b) {
        seq![b as char]
    } else {
        seq!['%', hex_digit(b / 16), hex_digit(b % 16)]
    }
}

/// A byte string as an encoded URL component.
pub open spec fn percent_encoded(bytes: Seq<u8>) -> Seq<char>
    decreases bytes.len(),
{
    if bytes.len() == 0 {
        Seq::empty()
    } else {
        percent_encoded(bytes.drop_last()) + encoded_byte(bytes.last())
    }
}

/// The characters that an encoded URL component is made of: `%` and the characters
/// that stand for themselves. None of them ends a query parameter or a URL.
pub open spec fn is_component_char(c: char) -> bool {
    c == '%' || ((c as int) < 256 && is_unreserved(c as u8))
}

/// An encoded URL component holds no character but `%` and those that stand for
/// themselves, whatever bytes went in.
pub proof fn lemma_encoded_is_safe(bytes: Seq<u8>, i: int)
    requires
        0 <= i < percent_encoded(bytes).len(),
    ensures
        is_component_char(percent_encoded(bytes)[i]),
    decreases bytes.len(),
{
    if i < percent_encoded(bytes.drop_last()).len() {
        lemma_encoded_is_safe(bytes.drop_last(), i);
    }
}

/// Calls `urlencoding::encode`, which walks the UTF-8 bytes of the text, keeps
/// alphanumerics and `-`, `.`, `_`, `~`, and writes every other byte as `%` with two
/// upper-case hex digits.
#[verifier::external_body]
pub(crate) fn url_encode(text: &str) -> (r: String)
    ensures
        r@ == percent_encoded(text.spec_bytes()),
{
    urlencoding::encode(text).into_owned()
}

} // verus!
