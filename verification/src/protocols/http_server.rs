//! The HTTPS dialect: reading a request's first line, choosing the
//! endpoint by method and path, and writing the response.

use vstd::prelude::*;
use vstd::string::StringExecFns;
use vstd::utf8::{decode_utf8, encode_utf8, valid_utf8};
use crate::protocols::legacy::{json_quoted, json_string};
use crate::utils::bytes::{contains_bytes, copy_range, find_bytes, first_occurrence};
use crate::utils::error::AirWinError;
use crate::utils::system::system_hostname;
use crate::utils::text::{
    contains_subseq, decimal_text, occurs_at, text_chars, u64_to_decimal,
};

verus! {

/// The text that `String::from_utf8_lossy` reads from bytes: valid UTF-8
/// decoded, each invalid sequence replaced by U+FFFD.
pub uninterp spec fn lossy_text(bytes: Seq<u8>) -> Seq<char>;

/// `String::from_utf8_lossy`, as an owned string. Bytes that are valid
/// UTF-8 are read as the text they encode.
#[verifier::external_body]
pub(crate) fn utf8_lossy(bytes: &[u8]) -> (text: String)
    ensures
        text@ == lossy_text(bytes@),
        valid_utf8(bytes@) ==> text@ == decode_utf8(bytes@),
{
    String::from_utf8_lossy(bytes).into_owned()
}

/// The blank line that ends a request's headers.
pub open spec fn header_end() -> Seq<u8> {
    seq![13u8, 10u8, 13u8, 10u8]
}

/// The characters that separate the words of a request line: the
/// characters with Unicode's White_Space property.
pub open spec fn is_separator(c: char) -> bool {
    let v = c as u32;
    ||| 0x09 <= v <= 0x0d
    ||| v == 0x20
    ||| v == 0x85
    ||| v == 0xa0
    ||| v == 0x1680
    ||| 0x2000 <= v <= 0x200a
    ||| v == 0x2028
    ||| v == 0x2029
    ||| v == 0x202f
    ||| v == 0x205f
    ||| v == 0x3000
}

/// The number of characters before the first line feed.
pub open spec fn line_len(text: Seq<char>) -> nat
    decreases text.len(),
{
    if text.len() == 0 || text[0] == '\n' {
        0
    } else {
        1 + line_len(text.drop_first())
    }
}

/// The first line of a text, without its line feed.
pub open spec fn first_line(text: Seq<char>) -> Seq<char> {
    text.take(line_len(text) as int)
}

/// The text without its leading separators.
pub open spec fn skip_separators(text: Seq<char>) -> Seq<char>
    decreases text.len(),
{
    if text.len() > 0 && is_separator(text[0]) {
        skip_separators(text.drop_first())
    } else {
        text
    }
}

/// The number of characters before the first separator.
pub open spec fn word_len(text: Seq<char>) -> nat
    decreases text.len(),
{
    if text.len() == 0 || is_separator(text[0]) {
        0
    } else {
        1 + word_len(text.drop_first())
    }
}

/// The words of a text: its maximal runs of characters that are no
/// separators, in order.
pub open spec fn words(text: Seq<char>) -> Seq<Seq<char>>
    decreases text.len(),
    via words_decreases
{
    let rest = skip_separators(text);
    if rest.len() == 0 {
        Seq::empty()
    } else {
        let n = word_len(rest) as int;
        seq![rest.take(n)] + words(rest.skip(n))
    }
}

#[via_fn]
proof fn words_decreases(text: Seq<char>) {
    let rest = skip_separators(text);
    lemma_skip_separators(text);
    if rest.len() != 0 {
        lemma_word_len(rest);
    }
}

/// Skipping separators drops a prefix and leaves no separator in front.
pub proof fn lemma_skip_separators(text: Seq<char>)
    ensures
        skip_separators(text).len() <= text.len(),
        skip_separators(text) == text.skip(text.len() - skip_separators(text).len()),
        skip_separators(text).len() > 0 ==> !is_separator(skip_separators(text)[0]),
    decreases text.len(),
{
    if text.len() > 0 && is_separator(text[0]) {
        lemma_skip_separators(text.drop_first());
        let rest = skip_separators(text);
        assert(text.drop_first().skip(text.drop_first().len() - rest.len()) =~= text.skip(
            text.len() - rest.len(),
        ));
    } else {
        assert(text.skip(0) =~= text);
    }
}

/// A word is no longer than its text, and is not empty when the text
/// starts with a character that is no separator.
pub proof fn lemma_word_len(text: Seq<char>)
    ensures
        word_len(text) <= text.len(),
        text.len() > 0 && !is_separator(text[0]) ==> word_len(text) > 0,
    decreases text.len(),
{
    if !(text.len() == 0 || is_separator(text[0])) {
        lemma_word_len(text.drop_first());
    }
}

/// Why a request could not be read.
#[derive(Debug, Clone, Copy, PartialEq, Eq, Structural)]
pub enum RequestError {
    /// Nothing was received.
    Empty,
    /// The first line has fewer than three words.
    InvalidRequestLine,
    /// The blank line that ends the headers is missing.
    MissingHeaderEnd,
}

/// The method and the path of a request: the first two words of its
/// first line, which must have three words at least.
pub open spec fn request_target(text: Seq<char>) -> Result<(Seq<char>, Seq<char>), RequestError> {
    if text.len() == 0 {
        Err(RequestError::Empty)
    } else {
        let parts = words(first_line(text));
        if parts.len() < 3 {
            Err(RequestError::InvalidRequestLine)
        } else {
            Ok((parts[0], parts[1]))
        }
    }
}

/// The endpoints of the HTTPS dialect.
#[derive(Debug, Clone, Copy, PartialEq, Eq, Structural)]
pub enum Route {
    /// `GET /`: the liveness probe.
    Root,
    /// `POST /Discover`: the receiver's capabilities.
    Discover,
    /// `POST /Ask`: the request to accept a transfer.
    Ask,
    /// `POST /Upload`: the transfer's bytes.
    Upload,
    /// Anything else.
    NotFound,
}

/// The endpoint that a method and a path select. Both are compared
/// exactly, case included.
pub open spec fn route_of(method: Seq<char>, path: Seq<char>) -> Route {
    if method == "GET"@ && path == "/"@ {
        Route::Root
    } else if method == "POST"@ && path == "/Discover"@ {
        Route::Discover
    } else if method == "POST"@ && path == "/Ask"@ {
        Route::Ask
    } else if method == "POST"@ && path == "/Upload"@ {
        Route::Upload
    } else {
        Route::NotFound
    }
}

/// The endpoint that a request's text selects.
pub open spec fn route_of_text(text: Seq<char>) -> Result<Route, RequestError> {
    match request_target(text) {
        Ok((method, path)) => Ok(route_of(method, path)),
        Err(e) => Err(e),
    }
}

/// The endpoint that a request's bytes select: that of the text that the
/// bytes are read as.
pub open spec fn route_of_request(buffer: Seq<u8>) -> Result<Route, RequestError> {
    route_of_text(lossy_text(buffer))
}

/// What the server answers.
#[derive(Debug)]
pub struct HttpResponse {
    pub status: u16,
    pub content_type: Option<String>,
    pub body: String,
}

/// The capabilities a receiver declares to `/Discover`.
pub open spec fn media_capabilities_json() -> Seq<char> {
    "{\"Vendor\":{\"com.microsoft\":{\"OSBuildVersion\":\"22000\",\"OSVersion\":[10,0]}},\"Version\":1}"@
}

/// The body of the answer to `/Discover` from a host of the given name.
pub open spec fn discover_json(host: Seq<char>) -> Seq<char> {
    "{\"ReceiverComputerName\":"@ + json_string(host) + ",\"ReceiverMediaCapabilities\":"@
        + media_capabilities_json() + ",\"ReceiverModelName\":\"Windows,1\"}"@
}

/// The body of the answer to `/Ask` from a host of the given name.
pub open spec fn ask_json(host: Seq<char>) -> Seq<char> {
    "{\"ReceiverComputerName\":"@ + json_string(host) + ",\"ReceiverModelName\":\"Windows,1\"}"@
}

/// The status line's text for a status code: `200 OK`, or `404 Not
/// Found` for every other code.
pub open spec fn status_text(status: u16) -> Seq<char> {
    if status == 200 {
        "HTTP/1.1 200 OK\r\n"@
    } else {
        "HTTP/1.1 404 Not Found\r\n"@
    }
}

/// A response as it goes over the wire: the status line, the content
/// type where there is one, the body's length in bytes, a blank line and
/// the body.
pub open spec fn response_text(response: HttpResponse) -> Seq<char> {
    status_text(response.status) + (match response.content_type {
        Some(t) => "Content-Type: "@ + t@ + "\r\n"@,
        None => Seq::<char>::empty(),
    }) + "Content-Length: "@ + decimal_text(encode_utf8(response.body@).len()) + "\r\n\r\n"@
        + response.body@
}

impl HttpResponse {
    /// This response has the given status and an empty body of no type.
    pub open spec fn is_empty_with(&self, status: u16) -> bool {
        self.status == status && self.content_type is None && self.body@.len() == 0
    }

    /// This response is a 200 that carries the given JSON text.
    pub open spec fn is_json_ok(&self, json: Seq<char>) -> bool {
        &&& self.status == 200
        &&& self.content_type matches Some(t) && t@ == "application/json"@
        &&& self.body@ == json
    }

    fn empty(status: u16) -> (response: HttpResponse)
        ensures
            response.is_empty_with(status),
    {
        HttpResponse { status, content_type: None, body: String::new() }
    }

    fn json(body: String) -> (response: HttpResponse)
        ensures
            response.is_json_ok(body@),
    {
        HttpResponse { status: 200, content_type: Some("application/json".to_string()), body }
    }

    /// The response as it goes over the wire.
    pub fn to_text(&self) -> (text: String)
        ensures
            text@ == response_text(*self),
    {
        let mut text = if self.status == 200 {
            "HTTP/1.1 200 OK\r\n".to_string()
        } else {
            "HTTP/1.1 404 Not Found\r\n".to_string()
        };
        match &self.content_type {
            Some(t) => {
                text.append("Content-Type: ");
                text.append(t.as_str());
                text.append("\r\n");
                assert(text@ =~= status_text(self.status) + ("Content-Type: "@ + t@ + "\r\n"@));
            },
            None => {
                assert(text@ =~= status_text(self.status) + Seq::<char>::empty());
            },
        }
        let length: usize = self.body.as_str().as_bytes().len();
        text.append("Content-Length: ");
        text.append(u64_to_decimal(length as u64).as_str());
        text.append("\r\n\r\n");
        text.append(self.body.as_str());
        text
    }
}

/// Whether `c` separates the words of a request line.
pub fn is_request_separator(c: char) -> (separates: bool)
    ensures
        separates == is_separator(c),
{
    let v: u32 = c as u32;
    (0x09 <= v && v <= 0x0d) || v == 0x20 || v == 0x85 || v == 0xa0 || v == 0x1680 || (0x2000 <= v
        && v <= 0x200a) || v == 0x2028 || v == 0x2029 || v == 0x202f || v == 0x205f || v == 0x3000
}

/// Whether the bytes read so far hold the blank line that ends the
/// headers.
pub fn headers_complete(buffer: &[u8]) -> (complete: bool)
    ensures
        complete == contains_subseq(buffer@, header_end()),
{
    let end: [u8; 4] = [13, 10, 13, 10];
    assert(end@ =~= header_end());
    contains_bytes(buffer, vstd::array::array_as_slice(&end))
}

/// The body of a request: what follows the first blank line.
pub fn request_body(buffer: &[u8]) -> (body: Result<Vec<u8>, RequestError>)
    ensures
        match body {
            Ok(bytes) => exists|at: int|
                first_occurrence(buffer@, header_end(), at) && bytes@ == buffer@.skip(at + 4),
            Err(e) => e == RequestError::MissingHeaderEnd && !contains_subseq(
                buffer@,
                header_end(),
            ),
        },
{
    let end: [u8; 4] = [13, 10, 13, 10];
    assert(end@ =~= header_end());
    match find_bytes(buffer, vstd::array::array_as_slice(&end)) {
        Some(at) => {
            let len: usize = buffer.len();
            assert(occurs_at(buffer@, header_end(), at as int));
            let bytes = copy_range(buffer, at + 4, len);
            assert(bytes@ =~= buffer@.skip(at + 4));
            Ok(bytes)
        },
        None => Err(RequestError::MissingHeaderEnd),
    }
}

/// The words of `line`, in order.
pub fn split_words(line: &[char]) -> (parts: Vec<Vec<char>>)
    ensures
        parts@.len() == words(line@).len(),
        forall|i: int| 0 <= i < parts@.len() ==> (#[trigger] parts@[i])@ == words(line@)[i],
{
    let n: usize = line.len();
    let mut parts: Vec<Vec<char>> = Vec::new();
    let ghost mut done: Seq<Seq<char>> = Seq::empty();
    let mut pos: usize = 0;
    assert(line@.skip(0) =~= line@);
    assert(done + words(line@.skip(0)) =~= words(line@));
    while pos < n
        invariant
            n == line@.len(),
            pos <= n,
            done.len() == parts@.len(),
            forall|i: int| 0 <= i < parts@.len() ==> (#[trigger] parts@[i])@ == done[i],
            done + words(line@.skip(pos as int)) == words(line@),
        decreases n - pos,
    {
        let ghost from = pos;
        let mut start: usize = pos;
        while start < n && is_request_separator(line[start])
            invariant
                n == line@.len(),
                pos <= start <= n,
                skip_separators(line@.skip(pos as int)) == skip_separators(
                    line@.skip(start as int),
                ),
            decreases n - start,
        {
            assert(line@.skip(start as int).drop_first() =~= line@.skip(start + 1));
            start += 1;
        }
        let ghost rest = line@.skip(start as int);
        assert(skip_separators(rest) == rest);
        if start == n {
            assert(rest =~= Seq::<char>::empty());
            assert(words(line@.skip(pos as int)) =~= Seq::<Seq<char>>::empty());
            assert(words(line@.skip(n as int)) =~= Seq::<Seq<char>>::empty());
            pos = n;
        } else {
            let mut end: usize = start;
            let mut word: Vec<char> = Vec::new();
            assert(line@.subrange(start as int, start as int) =~= Seq::<char>::empty());
            while end < n && !is_request_separator(line[end])
                invariant
                    n == line@.len(),
                    start <= end <= n,
                    word@ == line@.subrange(start as int, end as int),
                    word_len(line@.skip(start as int)) == (end - start) + word_len(
                        line@.skip(end as int),
                    ),
                decreases n - end,
            {
                word.push(line[end]);
                assert(line@.skip(end as int).drop_first() =~= line@.skip(end + 1));
                assert(line@.subrange(start as int, end + 1) =~= line@.subrange(
                    start as int,
                    end as int,
                ).push(line@[end as int]));
                end += 1;
            }
            proof {
                assert(word_len(line@.skip(end as int)) == 0);
                let len = word_len(rest) as int;
                assert(len == end - start);
                assert(rest.take(len) =~= word@);
                assert(rest.skip(len) =~= line@.skip(end as int));
                assert(words(line@.skip(pos as int)) == seq![word@] + words(
                    line@.skip(end as int),
                ));
                assert(done.push(word@) + words(line@.skip(end as int)) =~= done + words(
                    line@.skip(pos as int),
                ));
                done = done.push(word@);
            }
            parts.push(word);
            pos = end;
        }
    }
    proof {
        assert(line@.skip(n as int) =~= Seq::<char>::empty());
        assert(words(line@.skip(n as int)) =~= Seq::<Seq<char>>::empty());
        assert(done + Seq::<Seq<char>>::empty() =~= done);
    }
    parts
}

/// Whether `word` spells `literal`.
fn spells(word: &Vec<char>, literal: &str) -> (same: bool)
    ensures
        same == (word@ == literal@),
{
    let expected = text_chars(literal);
    if word.len() != expected.len() {
        return false;
    }
    let mut i: usize = 0;
    while i < word.len()
        invariant
            expected@ == literal@,
            word@.len() == expected@.len(),
            i <= word@.len(),
            forall|j: int| 0 <= j < i ==> word@[j] == expected@[j],
        decreases word@.len() - i,
    {
        if word[i] != expected[i] {
            assert(word@[i as int] != expected@[i as int]);
            return false;
        }
        i += 1;
    }
    assert(word@ =~= expected@);
    true
}

/// The endpoint that a method and a path select.
pub fn route_for(method: &Vec<char>, path: &Vec<char>) -> (route: Route)
    ensures
        route == route_of(method@, path@),
{
    if spells(method, "GET") && spells(path, "/") {
        Route::Root
    } else if spells(method, "POST") && spells(path, "/Discover") {
        Route::Discover
    } else if spells(method, "POST") && spells(path, "/Ask") {
        Route::Ask
    } else if spells(method, "POST") && spells(path, "/Upload") {
        Route::Upload
    } else {
        Route::NotFound
    }
}

/// The endpoint that a request's text selects.
pub fn route_text(text: &str) -> (route: Result<Route, RequestError>)
    ensures
        route == route_of_text(text@),
{
    let chars = text_chars(text);
    let n: usize = chars.len();
    if n == 0 {
        return Err(RequestError::Empty);
    }
    let mut end: usize = 0;
    assert(chars@.skip(0) =~= chars@);
    while end < n && chars[end] != '\n'
        invariant
            n == chars@.len(),
            end <= n,
            line_len(chars@) == end + line_len(chars@.skip(end as int)),
        decreases n - end,
    {
        assert(chars@.skip(end as int).drop_first() =~= chars@.skip(end + 1));
        end += 1;
    }
    assert(line_len(chars@.skip(end as int)) == 0);
    let mut line: Vec<char> = Vec::new();
    let mut i: usize = 0;
    while i < end
        invariant
            i <= end <= chars@.len(),
            line@ == chars@.take(i as int),
        decreases end - i,
    {
        line.push(chars[i]);
        assert(chars@.take(i + 1) =~= chars@.take(i as int).push(chars@[i as int]));
        i += 1;
    }
    let parts = split_words(line.as_slice());
    if parts.len() < 3 {
        Err(RequestError::InvalidRequestLine)
    } else {
        Ok(route_for(&parts[0], &parts[1]))
    }
}

/// The endpoint that a request's bytes select. Of bytes that are valid
/// UTF-8 it is the endpoint of the text that they encode.
pub fn route_request(buffer: &[u8]) -> (route: Result<Route, RequestError>)
    ensures
        route == route_of_request(buffer@),
        valid_utf8(buffer@) ==> route == route_of_text(decode_utf8(buffer@)),
{
    let text = utf8_lossy(buffer);
    route_text(text.as_str())
}

/// The body of the answer to `/Discover`. It always succeeds.
pub fn discover_body(host: &str) -> (body: Result<String, AirWinError>)
    ensures
        body matches Ok(text) && text@ == discover_json(host@),
{
    match json_quoted(host) {
        Ok(quoted) => {
            let mut text = "{\"ReceiverComputerName\":".to_string();
            text.append(quoted.as_str());
            text.append(",\"ReceiverMediaCapabilities\":");
            text.append(
                "{\"Vendor\":{\"com.microsoft\":{\"OSBuildVersion\":\"22000\",\"OSVersion\":[10,0]}},\"Version\":1}",
            );
            text.append(",\"ReceiverModelName\":\"Windows,1\"}");
            Ok(text)
        },
        Err(why) => Err(AirWinError::ProtocolError(why)),
    }
}

/// The body of the answer to `/Ask`. It always succeeds.
pub fn ask_body(host: &str) -> (body: Result<String, AirWinError>)
    ensures
        body matches Ok(text) && text@ == ask_json(host@),
{
    match json_quoted(host) {
        Ok(quoted) => {
            let mut text = "{\"ReceiverComputerName\":".to_string();
            text.append(quoted.as_str());
            text.append(",\"ReceiverModelName\":\"Windows,1\"}");
            Ok(text)
        },
        Err(why) => Err(AirWinError::ProtocolError(why)),
    }
}

/// `POST /Ask` is never refused: whatever the request's body holds, and
/// whenever the host's name is known, the reply is a 200 whose JSON body
/// names the receiver's computer. Without the host's name there is no
/// reply.
pub proof fn lemma_ask_is_accepted(
    buffer: Seq<u8>,
    host: Result<String, String>,
    result: Result<Reply, AirWinError>,
)
    requires
        is_reply_to(route_of("POST"@, "/Ask"@), buffer, host, result),
    ensures
        route_of("POST"@, "/Ask"@) == Route::Ask,
        result is Ok <==> host is Ok,
        host is Ok ==> {
            &&& result->Ok_0.response.status == 200
            &&& result->Ok_0.response.body@ == ask_json(host->Ok_0@)
            &&& contains_subseq(result->Ok_0.response.body@, "ReceiverComputerName"@)
        },
{
    reveal_strlit("POST");
    reveal_strlit("GET");
    reveal_strlit("/Ask");
    reveal_strlit("/Discover");
    assert("POST"@.len() == 4 && "GET"@.len() == 3);
    assert("/Ask"@.len() == 4 && "/Discover"@.len() == 9);
    if host is Ok {
        lemma_bodies_name_the_receiver(host->Ok_0@);
    }
}

/// A request for anything but the four endpoints selects no endpoint,
/// and the reply to it is a 404 with an empty body, whatever the host's
/// name is.
pub proof fn lemma_unknown_is_not_found(
    method: Seq<char>,
    path: Seq<char>,
    buffer: Seq<u8>,
    host: Result<String, String>,
    result: Result<Reply, AirWinError>,
)
    requires
        !(method == "GET"@ && path == "/"@),
        !(method == "POST"@ && (path == "/Discover"@ || path == "/Ask"@ || path == "/Upload"@)),
        is_reply_to(route_of(method, path), buffer, host, result),
    ensures
        route_of(method, path) == Route::NotFound,
        result matches Ok(reply) && reply.response.status == 404 && reply.response.body@.len() == 0,
{
}

/// The answers to `/Discover` and `/Ask` name the receiver's computer.
pub proof fn lemma_bodies_name_the_receiver(host: Seq<char>)
    ensures
        contains_subseq(ask_json(host), "ReceiverComputerName"@),
        contains_subseq(discover_json(host), "ReceiverComputerName"@),
{
    reveal_strlit("{\"ReceiverComputerName\":");
    reveal_strlit("ReceiverComputerName");
    let key = "ReceiverComputerName"@;
    let open = "{\"ReceiverComputerName\":"@;
    assert(open.subrange(2, 22) =~= key);
    assert(ask_json(host).subrange(2, 22) =~= key);
    assert(occurs_at(ask_json(host), key, 2));
    assert(discover_json(host).subrange(2, 22) =~= key);
    assert(occurs_at(discover_json(host), key, 2));
}

/// The lower-case form of a byte that is an ASCII capital letter; every
/// other byte is kept.
pub open spec fn lower_byte(b: u8) -> u8 {
    if 65 <= b <= 90 {
        (b + 32) as u8
    } else {
        b
    }
}

/// Bytes with their ASCII capital letters in lower case.
pub open spec fn lowered(bytes: Seq<u8>) -> Seq<u8> {
    Seq::new(bytes.len(), |i: int| lower_byte(bytes[i]))
}

/// The start of the header that declares the body's length, in lower
/// case: a line break, then `content-length:`.
pub open spec fn length_key() -> Seq<u8> {
    seq![
        13u8, 10u8, 99u8, 111u8, 110u8, 116u8, 101u8, 110u8, 116u8, 45u8, 108u8, 101u8, 110u8,
        103u8, 116u8, 104u8, 58u8,
    ]
}

/// A space or a tab.
pub open spec fn is_blank(b: u8) -> bool {
    b == 32 || b == 9
}

/// A decimal digit.
pub open spec fn is_digit(b: u8) -> bool {
    48 <= b <= 57
}

/// The bytes without their leading blanks.
pub open spec fn skip_blanks(bytes: Seq<u8>) -> Seq<u8>
    decreases bytes.len(),
{
    if bytes.len() > 0 && is_blank(bytes[0]) {
        skip_blanks(bytes.drop_first())
    } else {
        bytes
    }
}

/// The number of digits that the bytes begin with.
pub open spec fn digits_len(bytes: Seq<u8>) -> nat
    decreases bytes.len(),
{
    if bytes.len() == 0 || !is_digit(bytes[0]) {
        0
    } else {
        1 + digits_len(bytes.drop_first())
    }
}

/// The number that digits stand for, or the largest number that can be
/// held where they stand for more.
pub open spec fn digits_value(digits: Seq<u8>) -> int
    decreases digits.len(),
{
    if digits.len() == 0 {
        0
    } else {
        let value = digits_value(digits.drop_last()) * 10 + (digits.last() - 48);
        if value > u64::MAX {
            u64::MAX as int
        } else {
            value
        }
    }
}

/// The number that the bytes begin with, after blanks; none where no
/// digit follows the blanks.
pub open spec fn leading_number(bytes: Seq<u8>) -> Option<u64> {
    let rest = skip_blanks(bytes);
    let n = digits_len(rest) as int;
    if n == 0 {
        None
    } else {
        Some(digits_value(rest.take(n)) as u64)
    }
}

/// The length that a request's headers declare for its body: the number
/// after the first `Content-Length:`, in whatever case, among the
/// headers. None while the headers are not complete, and none where they
/// declare no length.
pub open spec fn declared_length(buffer: Seq<u8>) -> Option<u64> {
    if !contains_subseq(buffer, header_end()) {
        None
    } else {
        let end = choose|end: int| first_occurrence(buffer, header_end(), end);
        let head = buffer.take(end);
        if !contains_subseq(lowered(head), length_key()) {
            None
        } else {
            let at = choose|at: int| first_occurrence(lowered(head), length_key(), at);
            leading_number(head.skip(at + 17))
        }
    }
}

/// A request is complete when its headers are, and as many bytes of its
/// body have come as the headers declare.
pub open spec fn request_is_complete(buffer: Seq<u8>) -> bool {
    &&& contains_subseq(buffer, header_end())
    &&& match declared_length(buffer) {
        None => true,
        Some(length) => {
            let end = choose|end: int| first_occurrence(buffer, header_end(), end);
            buffer.len() - (end + 4) >= length
        },
    }
}

/// There is one first occurrence at most.
pub proof fn lemma_first_occurrence_is_one<T>(hay: Seq<T>, needle: Seq<T>, a: int, b: int)
    requires
        first_occurrence(hay, needle, a),
        first_occurrence(hay, needle, b),
    ensures
        a == b,
{
    assert(occurs_at(hay, needle, a) && occurs_at(hay, needle, b));
}

/// The number that the bytes from `from` on begin with, after blanks.
fn parse_number(bytes: &[u8], from: usize) -> (number: Option<u64>)
    requires
        from <= bytes@.len(),
    ensures
        number == leading_number(bytes@.skip(from as int)),
{
    let n: usize = bytes.len();
    let mut start: usize = from;
    while start < n && (bytes[start] == 32 || bytes[start] == 9)
        invariant
            n == bytes@.len(),
            from <= start <= n,
            skip_blanks(bytes@.skip(from as int)) == skip_blanks(bytes@.skip(start as int)),
        decreases n - start,
    {
        assert(bytes@.skip(start as int).drop_first() =~= bytes@.skip(start + 1));
        start += 1;
    }
    let ghost rest = bytes@.skip(start as int);
    assert(skip_blanks(rest) == rest);
    let mut end: usize = start;
    let mut value: u64 = 0;
    assert(bytes@.subrange(start as int, start as int) =~= Seq::<u8>::empty());
    while end < n && 48 <= bytes[end] && bytes[end] <= 57
        invariant
            n == bytes@.len(),
            start <= end <= n,
            digits_len(bytes@.skip(start as int)) == (end - start) + digits_len(
                bytes@.skip(end as int),
            ),
            value == digits_value(bytes@.subrange(start as int, end as int)),
        decreases n - end,
    {
        let digit: u64 = (bytes[end] - 48) as u64;
        let wide: u128 = (value as u128) * 10 + (digit as u128);
        proof {
            assert(bytes@.skip(end as int).drop_first() =~= bytes@.skip(end + 1));
            let next = bytes@.subrange(start as int, end + 1);
            assert(next.drop_last() =~= bytes@.subrange(start as int, end as int));
            assert(next.last() == bytes@[end as int]);
        }
        value = if wide > u64::MAX as u128 {
            u64::MAX
        } else {
            wide as u64
        };
        end += 1;
    }
    proof {
        assert(digits_len(bytes@.skip(end as int)) == 0);
        assert(rest.take(end - start) =~= bytes@.subrange(start as int, end as int));
    }
    if end == start {
        None
    } else {
        Some(value)
    }
}

/// The length that a request's headers declare for its body.
pub fn content_length(buffer: &[u8]) -> (length: Option<u64>)
    ensures
        length == declared_length(buffer@),
{
    let terminator: [u8; 4] = [13, 10, 13, 10];
    assert(terminator@ =~= header_end());
    let end = match find_bytes(buffer, vstd::array::array_as_slice(&terminator)) {
        Some(end) => end,
        None => {
            return None;
        },
    };
    proof {
        assert(occurs_at(buffer@, header_end(), end as int));
        let chosen = choose|e: int| first_occurrence(buffer@, header_end(), e);
        lemma_first_occurrence_is_one(buffer@, header_end(), end as int, chosen);
    }
    let head = copy_range(buffer, 0, end);
    assert(head@ =~= buffer@.take(end as int));
    let mut lower: Vec<u8> = Vec::new();
    let mut i: usize = 0;
    while i < head.len()
        invariant
            i <= head@.len(),
            lower@.len() == i,
            forall|j: int| 0 <= j < i ==> lower@[j] == lower_byte(head@[j]),
        decreases head@.len() - i,
    {
        let b: u8 = head[i];
        lower.push(
            if 65 <= b && b <= 90 {
                b + 32
            } else {
                b
            },
        );
        i += 1;
    }
    assert(lower@ =~= lowered(head@));
    let key: [u8; 17] = [13, 10, 99, 111, 110, 116, 101, 110, 116, 45, 108, 101, 110, 103, 116, 104, 58];
    assert(key@ =~= length_key());
    match find_bytes(lower.as_slice(), vstd::array::array_as_slice(&key)) {
        Some(at) => {
            proof {
                assert(occurs_at(lower@, length_key(), at as int));
                let chosen = choose|a: int| first_occurrence(lowered(head@), length_key(), a);
                lemma_first_occurrence_is_one(lowered(head@), length_key(), at as int, chosen);
            }
            parse_number(head.as_slice(), at + 17)
        },
        None => None,
    }
}

/// Whether the bytes read so far hold a whole request: its headers, and
/// as much of its body as they declare.
pub fn request_complete(buffer: &[u8]) -> (complete: bool)
    ensures
        complete == request_is_complete(buffer@),
{
    let terminator: [u8; 4] = [13, 10, 13, 10];
    assert(terminator@ =~= header_end());
    let total: usize = buffer.len();
    match find_bytes(buffer, vstd::array::array_as_slice(&terminator)) {
        None => false,
        Some(end) => {
            proof {
                assert(occurs_at(buffer@, header_end(), end as int));
                let chosen = choose|e: int| first_occurrence(buffer@, header_end(), e);
                lemma_first_occurrence_is_one(buffer@, header_end(), end as int, chosen);
            }
            match content_length(buffer) {
                None => true,
                Some(length) => (total - (end + 4)) as u64 >= length,
            }
        },
    }
}

/// What the server does for one request: the response to write, and the
/// uploaded bytes to keep where the request was an upload.
#[derive(Debug)]
pub struct Reply {
    pub response: HttpResponse,
    pub upload: Option<Vec<u8>>,
}

/// The reply that the contract of `respond` asks for, given the
/// endpoint, the request's bytes and the outcome of asking the host's
/// name.
pub open spec fn is_reply_to(
    route: Route,
    buffer: Seq<u8>,
    host: Result<String, String>,
    result: Result<Reply, AirWinError>,
) -> bool {
    match route {
        Route::Root => result matches Ok(reply) && reply.response.is_empty_with(200)
            && reply.upload is None,
        Route::NotFound => result matches Ok(reply) && reply.response.is_empty_with(404)
            && reply.upload is None,
        Route::Upload => if contains_subseq(buffer, header_end()) {
            &&& result matches Ok(reply)
            &&& reply.response.is_empty_with(200)
            &&& reply.upload matches Some(bytes)
            &&& exists|at: int|
                first_occurrence(buffer, header_end(), at) && bytes@ == buffer.skip(at + 4)
        } else {
            result matches Err(AirWinError::ProtocolError(m)) && m@
                == "Could not find end of HTTP headers"@
        },
        Route::Discover => match host {
            Ok(name) => result matches Ok(reply) && reply.response.is_json_ok(
                discover_json(name@),
            ) && reply.upload is None,
            Err(why) => result matches Err(AirWinError::Other(m)) && m@ == why@,
        },
        Route::Ask => match host {
            Ok(name) => result matches Ok(reply) && reply.response.is_json_ok(ask_json(name@))
                && reply.upload is None,
            Err(why) => result matches Err(AirWinError::Other(m)) && m@ == why@,
        },
    }
}

/// The reply to a request for `route`. The liveness probe and unknown
/// endpoints are answered with an empty body, by 200 and 404; an upload
/// by an empty 200, with the request's body to keep; a discovery by the
/// receiver's capabilities; and a request to accept a transfer is always
/// accepted. The last two name the host: they fail when its name could
/// not be read, and only then.
pub fn respond(route: Route, buffer: &[u8], host: Result<String, String>) -> (result: Result<
    Reply,
    AirWinError,
>)
    ensures
        is_reply_to(route, buffer@, host, result),
        (route == Route::Ask || route == Route::Discover) && host is Ok ==> (result matches Ok(
            reply,
        ) && reply.response.status == 200 && contains_subseq(
            reply.response.body@,
            "ReceiverComputerName"@,
        )),
{
    match route {
        Route::Root => Ok(Reply { response: HttpResponse::empty(200), upload: None }),
        Route::NotFound => Ok(Reply { response: HttpResponse::empty(404), upload: None }),
        Route::Upload => match request_body(buffer) {
            Ok(bytes) => {
                assert(contains_subseq(buffer@, header_end())) by {
                    let at = choose|at: int| first_occurrence(buffer@, header_end(), at);
                    assert(occurs_at(buffer@, header_end(), at));
                }
                Ok(Reply { response: HttpResponse::empty(200), upload: Some(bytes) })
            },
            Err(_) => Err(
                AirWinError::ProtocolError("Could not find end of HTTP headers".to_string()),
            ),
        },
        Route::Discover => match host {
            Ok(name) => {
                proof {
                    lemma_bodies_name_the_receiver(name@);
                }
                match discover_body(name.as_str()) {
                    Ok(body) => Ok(Reply { response: HttpResponse::json(body), upload: None }),
                    Err(e) => Err(e),
                }
            },
            Err(why) => Err(AirWinError::Other(why)),
        },
        Route::Ask => match host {
            Ok(name) => {
                proof {
                    lemma_bodies_name_the_receiver(name@);
                }
                match ask_body(name.as_str()) {
                    Ok(body) => Ok(Reply { response: HttpResponse::json(body), upload: None }),
                    Err(e) => Err(e),
                }
            },
            Err(why) => Err(AirWinError::Other(why)),
        },
    }
}

/// Reads a request, chooses its endpoint and replies. A request that
/// cannot be read is a protocol error. Of bytes that are valid UTF-8 the
/// endpoint is that of the text that they encode. The host's name is asked for only
/// where the reply carries it.
pub fn handle_request(buffer: &[u8]) -> (result: Result<Reply, AirWinError>)
    ensures
        match route_of_request(buffer@) {
            Err(RequestError::Empty) => result matches Err(AirWinError::ProtocolError(m)) && m@
                == "Empty HTTP request"@,
            Err(_) => result matches Err(AirWinError::ProtocolError(m)) && m@
                == "Invalid HTTP request line"@,
            Ok(route) => exists|host: Result<String, String>|
                #[trigger] is_reply_to(route, buffer@, host, result),
        },
        valid_utf8(buffer@) ==> route_of_request(buffer@) == route_of_text(decode_utf8(buffer@)),
{
    match route_request(buffer) {
        Err(RequestError::Empty) => Err(
            AirWinError::ProtocolError("Empty HTTP request".to_string()),
        ),
        Err(_) => Err(AirWinError::ProtocolError("Invalid HTTP request line".to_string())),
        Ok(route) => {
            let host = match route {
                Route::Discover => system_hostname(),
                Route::Ask => system_hostname(),
                _ => Err(String::new()),
            };
            let ghost asked = host;
            let result = respond(route, buffer, host);
            assert(is_reply_to(route, buffer@, asked, result));
            result
        },
    }
}

/// The HTTPS server's state.
#[derive(Debug)]
pub struct AirDropHttpServer {
    port: u16,
    tls_ready: bool,
    running: bool,
}

impl AirDropHttpServer {
    /// The port the server listens on.
    pub closed spec fn spec_port(&self) -> u16 {
        self.port
    }

    /// Whether an identity was issued for the server.
    pub closed spec fn is_initialized(&self) -> bool {
        self.tls_ready
    }

    /// Whether the server accepts connections.
    pub closed spec fn is_running(&self) -> bool {
        self.running
    }

    pub fn new(port: u16) -> (server: Self)
        ensures
            server.spec_port() == port,
            !server.is_initialized(),
            !server.is_running(),
    {
        AirDropHttpServer { port, tls_ready: false, running: false }
    }

    pub fn port(&self) -> (port: u16)
        ensures
            port == self.spec_port(),
    {
        self.port
    }

    pub fn running(&self) -> (running: bool)
        ensures
            running == self.is_running(),
    {
        self.running
    }

    /// Takes the outcome of issuing the server's identity: with an
    /// identity the server is initialized, without one it is as before.
    pub fn initialize_with(
        &mut self,
        identity: Result<crate::protocols::credentials::TlsIdentity, crate::protocols::credentials::CertificateError>,
    ) -> (result: Result<crate::protocols::credentials::TlsIdentity, AirWinError>)
        ensures
            final(self).spec_port() == old(self).spec_port(),
            final(self).is_running() == old(self).is_running(),
            match identity {
                Ok(id) => result == Ok::<crate::protocols::credentials::TlsIdentity, AirWinError>(id)
                    && final(self).is_initialized(),
                Err(e) => result matches Err(AirWinError::Other(m)) && m@ == e.reason@
                    && final(self).is_initialized() == old(self).is_initialized(),
            },
    {
        match identity {
            Ok(id) => {
                self.tls_ready = true;
                Ok(id)
            },
            Err(e) => Err(AirWinError::Other(e.reason)),
        }
    }

    /// Issues the server's identity. It fails only when no certificate
    /// can be generated; an identity that is issued holds a certificate
    /// and a key, each in both forms.
    pub fn initialize(&mut self) -> (result: Result<
        crate::protocols::credentials::TlsIdentity,
        AirWinError,
    >)
        ensures
            final(self).spec_port() == old(self).spec_port(),
            final(self).is_running() == old(self).is_running(),
            result matches Ok(identity) ==> final(self).is_initialized() && identity.is_filled(),
            result is Err ==> final(self).is_initialized() == old(self).is_initialized(),
            result matches Err(e) ==> e is Other,
    {
        self.initialize_with(crate::protocols::credentials::generate_certificate())
    }

    /// Asks to start: the port to bind when the server is initialized,
    /// an error before that. The state is not changed.
    pub fn start(&self) -> (result: Result<u16, AirWinError>)
        ensures
            self.is_initialized() ==> result == Ok::<u16, AirWinError>(self.spec_port()),
            !self.is_initialized() ==> (result matches Err(AirWinError::Other(m)) && m@
                == "TLS acceptor not initialized"@),
    {
        if self.tls_ready {
            Ok(self.port)
        } else {
            Err(AirWinError::Other("TLS acceptor not initialized".to_string()))
        }
    }

    /// Takes the outcome of binding the port: once bound the server
    /// runs; a bind failure is a network error and leaves it as it was.
    pub fn listening(&mut self, bound: Result<(), String>) -> (result: Result<(), AirWinError>)
        ensures
            final(self).spec_port() == old(self).spec_port(),
            final(self).is_initialized() == old(self).is_initialized(),
            match bound {
                Ok(_) => result is Ok && final(self).is_running(),
                Err(why) => result matches Err(AirWinError::NetworkError(m)) && m@ == why@
                    && final(self).is_running() == old(self).is_running(),
            },
    {
        match bound {
            Ok(_) => {
                self.running = true;
                Ok(())
            },
            Err(why) => Err(AirWinError::NetworkError(why)),
        }
    }

    /// Stops accepting connections.
    pub fn stop(&mut self)
        ensures
            !final(self).is_running(),
            final(self).spec_port() == old(self).spec_port(),
            final(self).is_initialized() == old(self).is_initialized(),
    {
        self.running = false;
    }
}

} // verus!
