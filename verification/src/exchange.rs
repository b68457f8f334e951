//! The request/response exchange: one line out, bytes back until the peer
//! finishes the stream.

use crate::settings::MAX_DATAGRAM_SIZE;
use vstd::prelude::*;
use vstd::string::*;
use vstd::utf8::*;

verus! {

/// The text of the request for `path`: the word `GET`, a space, the path, a
/// carriage return and a line feed.
pub open spec fn request_text(path: Seq<char>) -> Seq<char> {
    seq!['G', 'E', 'T', ' '] + path + seq!['\r', '\n']
}

/// The bytes of the request for `path`: its text in UTF-8.
pub open spec fn request_line(path: Seq<char>) -> Seq<u8> {
    encode_utf8(request_text(path))
}

/// The request for `path`, as the bytes that go onto the exchange stream.
pub fn encode_request(path: &str) -> (request: Vec<u8>)
    ensures
        request@ == request_line(path@),
{
    let mut text = String::from_str("GET ");
    text.append(path);
    text.append("\r\n");
    proof {
        reveal_strlit("GET ");
        reveal_strlit("\r\n");
        assert(text@ =~= request_text(path@));
    }
    text.as_str().as_bytes_vec()
}

/// The path of the URL that `url` parses to, or `None` where `url` is no
/// absolute URL.
pub uninterp spec fn url_path(url: Seq<char>) -> Option<Seq<char>>;

/// The path part of a URL, from `url::Url::parse` and `url::Url::path`.
/// The result is the one that the name `url_path` stands for: the path of
/// the parsed URL, and `None` where the text does not parse.
#[verifier::external_body]
fn path_of(url: &str) -> (path: Option<String>)
    ensures
        match path {
            Some(p) => url_path(url@) == Some(p@),
            None => url_path(url@) is None,
        },
{
    match url::Url::parse(url) {
        Ok(parsed) => Some(parsed.path().to_string()),
        Err(_) => None,
    }
}

/// The request for the path of `url`, or `None` where `url` is no absolute
/// URL.
pub fn request_for(url: &str) -> (request: Option<Vec<u8>>)
    ensures
        match request {
            Some(bytes) => url_path(url@) matches Some(path) && bytes@ == request_line(path),
            None => url_path(url@) is None,
        },
{
    match path_of(url) {
        Some(path) => Some(encode_request(path.as_str())),
        None => None,
    }
}

/// Bytes that were taken for text are not UTF-8.
#[derive(Clone, Copy, Debug, PartialEq, Eq, Structural)]
pub struct DecodeError;

/// The bytes as a string slice, from `std::str::from_utf8`: there is one
/// exactly if the bytes are valid UTF-8, and it is made of those same bytes.
#[verifier::external_body]
fn utf8_str(bytes: &[u8]) -> (text: Option<&str>)
    ensures
        text is Some <==> valid_utf8(bytes@),
        text matches Some(t) ==> t.spec_bytes() == bytes@,
{
    std::str::from_utf8(bytes).ok()
}

/// Reads response bytes as text. Bytes that are not valid UTF-8 give an
/// error instead of text.
pub fn response_text(bytes: &[u8]) -> (text: Result<&str, DecodeError>)
    ensures
        text is Ok <==> valid_utf8(bytes@),
        text matches Ok(t) ==> t@ == decode_utf8(bytes@),
{
    match utf8_str(bytes) {
        Some(t) => {
            proof {
                encode_utf8_decode_utf8(t@);
            }
            Ok(t)
        },
        None => Err(DecodeError),
    }
}

/// What the outbound buffer holds before the engine writes into it: the
/// text given for it if that is exactly as long as the buffer, and zeros
/// otherwise.
pub open spec fn buffer_start(body: Seq<u8>) -> Seq<u8> {
    if body.len() == MAX_DATAGRAM_SIZE {
        body
    } else {
        Seq::new(MAX_DATAGRAM_SIZE as nat, |i: int| 0u8)
    }
}

/// The outbound buffer as it is before the engine writes into it.
pub fn outbound_buffer(body: &[u8]) -> (out: [u8; MAX_DATAGRAM_SIZE])
    ensures
        out@ == buffer_start(body@),
{
    let mut out = [0u8; MAX_DATAGRAM_SIZE];
    if body.len() == MAX_DATAGRAM_SIZE {
        let mut i: usize = 0;
        while i < MAX_DATAGRAM_SIZE
            invariant
                i <= MAX_DATAGRAM_SIZE,
                body@.len() == MAX_DATAGRAM_SIZE,
                forall|k: int| 0 <= k < i ==> out@[k] == body@[k],
            decreases MAX_DATAGRAM_SIZE - i,
        {
            out[i] = body[i];
            i = i + 1;
        }
        assert(out@ =~= body@);
    } else {
        assert(out@ =~= Seq::new(MAX_DATAGRAM_SIZE as nat, |i: int| 0u8));
    }
    out
}

} // verus!
