//! The judge client: the headers that every request carries, and the three
//! requests that the judge answers.

use crate::error::HarvestError;
use crate::text::{decimal, decimal_text};
use crate::token::Token;
use vstd::prelude::*;
use vstd::string::StringExecFns;
use vstd::utf8::{
    char_is_scalar, encode_scalar, encode_utf8, has_width_1_encoding, has_width_2_encoding,
    has_width_3_encoding,
};

verus! {

/// `reqwest::header::HeaderValue`, a checked header value. It is only
/// made, never read.
#[verifier::external_type_specification]
#[verifier::external_body]
pub struct ExHeaderValue(reqwest::header::HeaderValue);

/// `reqwest::header::InvalidHeaderValue`, what `HeaderValue::from_str`
/// returns for a text that it rejects. Nothing is read from it.
#[verifier::external_type_specification]
#[verifier::external_body]
pub struct ExInvalidHeaderValue(reqwest::header::InvalidHeaderValue);

/// A byte that may stand in a header value: a tab, or anything from the
/// space upwards but DEL.
pub open spec fn header_byte(byte: u8) -> bool {
    (byte >= 32 && byte != 127) || byte == 9
}

/// Bytes that may all stand in a header value.
pub open spec fn header_bytes(bytes: Seq<u8>) -> bool {
    forall|i: int| 0 <= i < bytes.len() ==> header_byte(#[trigger] bytes[i])
}

/// A character that may stand in a header value: a tab, or any character
/// that is no control character of ASCII.
pub open spec fn header_char(c: char) -> bool {
    (c as u32 >= 32 && c as u32 != 127) || c as u32 == 9
}

/// A text that can be written as a header value.
pub open spec fn header_text(text: Seq<char>) -> bool {
    forall|i: int| 0 <= i < text.len() ==> header_char(#[trigger] text[i])
}

/// Calls `HeaderValue::from_str`, which `reqwest::header` hands on from
/// the `http` crate. It goes through the bytes of the text and accepts the
/// text exactly where each of them is a tab, or at least 32 and not 127.
#[verifier::external_body]
fn header_value_from_str(text: &str) -> (r: Result<
    reqwest::header::HeaderValue,
    reqwest::header::InvalidHeaderValue,
>)
    ensures
        r is Ok <==> header_bytes(encode_utf8(text@)),
{
    reqwest::header::HeaderValue::from_str(text)
}

proof fn lemma_single_byte(v: u32)
    by (bit_vector)
    requires
        v <= 0x7F,
    ensures
        (v & 0x7F) as u8 as u32 == v,
{
}

proof fn lemma_high_bytes(v: u32)
    by (bit_vector)
    ensures
        0xC0u8 | ((v >> 6) & 0x1F) as u8 >= 0x80u8,
        0xE0u8 | ((v >> 12) & 0x0F) as u8 >= 0x80u8,
        0xF0u8 | ((v >> 18) & 0x7) as u8 >= 0x80u8,
        0x80u8 | (v & 0x3F) as u8 >= 0x80u8,
        0x80u8 | ((v >> 6) & 0x3F) as u8 >= 0x80u8,
        0x80u8 | ((v >> 12) & 0x3F) as u8 >= 0x80u8,
{
}

/// The bytes of one character may stand in a header value exactly where
/// the character may: a character of ASCII is its own byte, and every
/// byte of a longer form is above DEL.
proof fn lemma_header_scalar(c: char)
    ensures
        header_bytes(encode_scalar(c as u32)) <==> header_char(c),
{
    let v = c as u32;
    let bytes = encode_scalar(v);
    char_is_scalar(c);
    lemma_high_bytes(v);
    if has_width_1_encoding(v) {
        lemma_single_byte(v);
        assert(bytes[0] as u32 == v);
        if header_bytes(bytes) {
            assert(header_byte(bytes[0]));
        }
    } else if has_width_2_encoding(v) {
    } else if has_width_3_encoding(v) {
    } else {
    }
}

/// A text can be written as a header value exactly where none of its
/// characters is a control character of ASCII other than the tab.
pub proof fn law_header_text(text: Seq<char>)
    ensures
        header_bytes(encode_utf8(text)) <==> header_text(text),
    decreases text.len(),
{
    if text.len() > 0 {
        let head = encode_scalar(text[0] as u32);
        let rest = text.drop_first();
        let tail = encode_utf8(rest);
        lemma_header_scalar(text[0]);
        law_header_text(rest);
        assert(encode_utf8(text) == head + tail);
        if header_bytes(head + tail) {
            assert forall|i: int| 0 <= i < head.len() implies header_byte(#[trigger] head[i]) by {
                assert((head + tail)[i] == head[i]);
            }
            assert forall|i: int| 0 <= i < tail.len() implies header_byte(#[trigger] tail[i]) by {
                assert((head + tail)[head.len() + i] == tail[i]);
            }
            assert forall|i: int| 0 <= i < text.len() implies header_char(#[trigger] text[i]) by {
                if i > 0 {
                    assert(rest[i - 1] == text[i]);
                }
            }
        }
        if header_text(text) {
            assert forall|i: int| 0 <= i < rest.len() implies header_char(#[trigger] rest[i]) by {
                assert(rest[i] == text[i + 1]);
            }
            assert(header_bytes(head + tail));
        }
    }
}

/// The headers that every request carries: the marker that asks for a
/// content-only response, then the cookie.
pub open spec fn headers_for(cookie: Seq<char>) -> Seq<(Seq<char>, Seq<char>)> {
    seq![("x-luogu-type"@, "content-only"@), ("cookie"@, cookie)]
}

/// One GET: the address, the query parameters and the headers to send.
#[derive(Clone, Debug, PartialEq, Eq)]
pub struct Request {
    pub url: String,
    pub query: Vec<(String, String)>,
    pub headers: Vec<(String, String)>,
}

/// A request as plain text.
pub struct RequestView {
    pub url: Seq<char>,
    pub query: Seq<(Seq<char>, Seq<char>)>,
    pub headers: Seq<(Seq<char>, Seq<char>)>,
}

impl View for Request {
    type V = RequestView;

    open spec fn view(&self) -> RequestView {
        RequestView {
            url: self.url@,
            query: self.query.deep_view(),
            headers: self.headers.deep_view(),
        }
    }
}

/// The request for the problems of a problem set.
pub open spec fn training_request_for(cookie: Seq<char>, problem_set: nat) -> RequestView {
    RequestView {
        url: "https://www.luogu.com.cn/training/"@ + decimal(problem_set),
        query: Seq::empty(),
        headers: headers_for(cookie),
    }
}

/// The request for a user's accepted records of a problem, the most recent
/// first: status 12 is "Accepted".
pub open spec fn record_list_request_for(
    cookie: Seq<char>,
    pid: Seq<char>,
    uid: Seq<char>,
) -> RequestView {
    RequestView {
        url: "https://www.luogu.com.cn/record/list"@,
        query: seq![("pid"@, pid), ("user"@, uid), ("status"@, "12"@)],
        headers: headers_for(cookie),
    }
}

/// The request for one submission record.
pub open spec fn record_request_for(cookie: Seq<char>, rid: Seq<char>) -> RequestView {
    RequestView {
        url: "https://www.luogu.com.cn/record/"@ + rid,
        query: Seq::empty(),
        headers: headers_for(cookie),
    }
}

/// The judge client: it holds the cookie of the session, which is known to
/// be fit for a header, and writes the requests.
#[derive(Debug, PartialEq, Eq)]
pub struct JudgeClient {
    cookie: String,
}

impl View for JudgeClient {
    type V = Seq<char>;

    closed spec fn view(&self) -> Seq<char> {
        self.cookie@
    }
}

impl JudgeClient {
    #[verifier::type_invariant]
    spec fn inv(self) -> bool {
        header_text(self.cookie@)
    }

    /// The cookie that the client sends.
    pub fn cookie(&self) -> (cookie: &str)
        ensures
            cookie@ == self@,
            header_text(self@),
    {
        proof {
            use_type_invariant(self);
        }
        self.cookie.as_str()
    }

    /// The headers of every request.
    pub fn headers(&self) -> (headers: Vec<(String, String)>)
        ensures
            headers.deep_view() == headers_for(self@),
    {
        let mut headers: Vec<(String, String)> = Vec::new();
        headers.push(("x-luogu-type".to_owned(), "content-only".to_owned()));
        headers.push(("cookie".to_owned(), self.cookie.clone()));
        assert(headers.deep_view() =~= headers_for(self@));
        headers
    }

    /// Asks for the problems of a problem set.
    pub fn training_request(&self, problem_set: u64) -> (request: Request)
        ensures
            request@ == training_request_for(self@, problem_set as nat),
    {
        let digits = decimal_text(problem_set);
        let url = "https://www.luogu.com.cn/training/".to_owned().concat(digits.as_str());
        let request = Request { url, query: Vec::new(), headers: self.headers() };
        assert(request.query.deep_view() =~= Seq::empty());
        request
    }

    /// Asks for a user's accepted records of a problem.
    pub fn record_list_request(&self, pid: &str, uid: &str) -> (request: Request)
        ensures
            request@ == record_list_request_for(self@, pid@, uid@),
    {
        let mut query: Vec<(String, String)> = Vec::new();
        query.push(("pid".to_owned(), pid.to_owned()));
        query.push(("user".to_owned(), uid.to_owned()));
        query.push(("status".to_owned(), "12".to_owned()));
        assert(query.deep_view() =~= seq![("pid"@, pid@), ("user"@, uid@), ("status"@, "12"@)]);
        Request {
            url: "https://www.luogu.com.cn/record/list".to_owned(),
            query,
            headers: self.headers(),
        }
    }

    /// Asks for one submission record.
    pub fn record_request(&self, rid: &str) -> (request: Request)
        ensures
            request@ == record_request_for(self@, rid@),
    {
        let url = "https://www.luogu.com.cn/record/".to_owned().concat(rid);
        let request = Request { url, query: Vec::new(), headers: self.headers() };
        assert(request.query.deep_view() =~= Seq::empty());
        request
    }
}

/// Builds the judge client from the token. It fails, with `Configuration`,
/// exactly where the cookie holds a control character of ASCII other than
/// the tab.
pub fn get_client(token: &Token) -> (client: Result<JudgeClient, HarvestError>)
    ensures
        match client {
            Ok(built) => header_text(token@.cookie()) && built@ == token@.cookie(),
            Err(error) => !header_text(token@.cookie()) && error == HarvestError::Configuration,
        },
{
    let cookie = token.cookie();
    proof {
        law_header_text(cookie@);
    }
    match header_value_from_str(cookie.as_str()) {
        Ok(_) => Ok(JudgeClient { cookie }),
        Err(_) => Err(HarvestError::Configuration),
    }
}

} // verus!
