//! Answering the requests that reach the development server.
//!
//! The server exposes the frontend directory read-only over plain HTTP: it
//! answers `GET` requests for documents below the document root, and nothing
//! else. Here the answers are decided; the host owns the socket and the files.

use crate::text::{decimal, decimal_text};
use vstd::prelude::*;
use vstd::slice::*;
use vstd::string::*;

verus! {

/// The bytes of a text whose characters are all ASCII.
pub open spec fn ascii(text: Seq<char>) -> Seq<u8> {
    Seq::new(text.len(), |i: int| text[i] as u8)
}

/// The space between the parts of a request line.
pub const SPACE: u8 = 0x20;

/// Carriage return.
pub const CR: u8 = 0x0d;

/// Line feed.
pub const LF: u8 = 0x0a;

/// The slash between the segments of a path.
pub const SLASH: u8 = 0x2f;

/// The dot before an extension.
pub const DOT: u8 = 0x2e;

/// The question mark before a query.
pub const QUESTION: u8 = 0x3f;

/// The hash before a fragment.
pub const HASH: u8 = 0x23;

/// Whether `b` ends a token of the request line.
pub open spec fn is_break(b: u8) -> bool {
    b == SPACE || b == CR || b == LF
}

/// Whether `b` ends the path of a request target: what follows is a query or a
/// fragment.
pub open spec fn is_cut(b: u8) -> bool {
    b == QUESTION || b == HASH
}

/// Where the token that begins at `from` ends: at the first break from there on,
/// or at the end of `data`.
pub open spec fn token_end(data: Seq<u8>, from: int) -> int
    decreases data.len() - from,
{
    if 0 <= from < data.len() && !is_break(data[from]) {
        token_end(data, from + 1)
    } else {
        from
    }
}

/// Where the path of a request target ends, seen from `from`: at the first cut
/// from there on, or at the end of `target`.
pub open spec fn path_end(target: Seq<u8>, from: int) -> int
    decreases target.len() - from,
{
    if 0 <= from < target.len() && !is_cut(target[from]) {
        path_end(target, from + 1)
    } else {
        from
    }
}

/// Whether `b` may stand in the path of a document: letters, digits, `/`, and
/// the marks `-._~!$&'()*+,;=@`. A percent sign, a backslash and a colon may not.
pub open spec fn is_path_byte(b: u8) -> bool {
    ||| 0x61 <= b <= 0x7a
    ||| 0x41 <= b <= 0x5a
    ||| 0x30 <= b <= 0x39
    ||| b == 0x2d
    ||| b == DOT
    ||| b == 0x5f
    ||| b == 0x7e
    ||| b == 0x21
    ||| b == 0x24
    ||| 0x26 <= b <= 0x2c
    ||| b == 0x3b
    ||| b == 0x3d
    ||| b == 0x40
    ||| b == SLASH
}

/// Whether `path` is the absolute path of a document that may be served: it
/// begins with a slash, holds path bytes only, and none of its segments is empty
/// or begins with a dot.
pub open spec fn is_served_path(path: Seq<u8>) -> bool {
    &&& path.len() > 0
    &&& path[0] == SLASH
    &&& forall|i: int| 0 <= i < path.len() ==> is_path_byte(#[trigger] path[i])
    &&& forall|i: int|
        0 < i < path.len() && path[i - 1] == SLASH ==> #[trigger] path[i] != DOT && path[i]
            != SLASH
}

/// The document that a request target names, relative to the document root, or
/// `None` if the target names nothing that may be served.
///
/// Query and fragment are dropped. A path that ends in a slash names the entry
/// document of that directory.
pub open spec fn document_of(target: Seq<u8>) -> Option<Seq<u8>> {
    let path = target.subrange(0, path_end(target, 0));
    if !is_served_path(path) {
        None
    } else if path.last() == SLASH {
        Some(path.subrange(1, path.len() as int) + ascii("index.html"@))
    } else {
        Some(path.subrange(1, path.len() as int))
    }
}

/// Whether `document` stays below the document root when it is joined to it: it
/// is a relative path without a backslash or a colon, and none of its segments
/// is empty or begins with a dot, so none is `..`.
pub open spec fn is_confined(document: Seq<u8>) -> bool {
    &&& document.len() > 0
    &&& document[0] != SLASH
    &&& document[0] != DOT
    &&& forall|i: int|
        0 <= i < document.len() ==> #[trigger] document[i] != 0x5c && document[i] != 0x3a
            && document[i] != 0
    &&& forall|i: int|
        0 < i < document.len() && document[i - 1] == SLASH ==> #[trigger] document[i] != DOT
            && document[i] != SLASH
}

/// Every document that a request can reach stays below the document root.
pub proof fn documents_are_confined(target: Seq<u8>)
    ensures
        document_of(target) matches Some(document) ==> is_confined(document),
{
    let path = target.subrange(0, path_end(target, 0));
    if is_served_path(path) {
        reveal_strlit("index.html");
        let rest = path.subrange(1, path.len() as int);
        let index = ascii("index.html"@);
        assert forall|i: int| 0 <= i < rest.len() implies is_path_byte(#[trigger] rest[i]) by {
            assert(rest[i] == path[i + 1]);
        }
        assert forall|i: int| 0 < i < rest.len() && rest[i - 1] == SLASH implies #[trigger] rest[i]
            != DOT && rest[i] != SLASH by {
            assert(rest[i] == path[i + 1]);
            assert(rest[i - 1] == path[i + 1 - 1]);
        }
        if path.last() == SLASH {
            let document = rest + index;
            assert(document_of(target) == Some(document));
            assert(index.len() == 10);
            assert forall|i: int| 0 <= i < document.len() implies #[trigger] document[i] != 0x5c
                && document[i] != 0x3a && document[i] != 0 by {
                if i < rest.len() {
                    assert(document[i] == rest[i]);
                    assert(is_path_byte(rest[i]));
                } else {
                    assert(document[i] == index[i - rest.len()]);
                }
            }
            assert forall|i: int|
                0 < i < document.len() && document[i - 1] == SLASH implies #[trigger] document[i]
                != DOT && document[i] != SLASH by {
                if i < rest.len() {
                    assert(document[i] == rest[i]);
                    assert(document[i - 1] == rest[i - 1]);
                } else {
                    assert(document[i] == index[i - rest.len()]);
                }
            }
            if rest.len() > 0 {
                assert(document[0] == rest[0]);
                assert(rest[0] == path[1]);
            } else {
                assert(document[0] == index[0]);
            }
        } else {
            assert(document_of(target) == Some(rest));
            assert(path.len() > 1);
            assert(rest[0] == path[1]);
            assert forall|i: int| 0 <= i < rest.len() implies #[trigger] rest[i] != 0x5c && rest[i]
                != 0x3a && rest[i] != 0 by {
                assert(is_path_byte(rest[i]));
            }
        }
    }
}

fn path_byte(b: u8) -> (yes: bool)
    ensures
        yes == is_path_byte(b),
{
    (0x61 <= b && b <= 0x7a) || (0x41 <= b && b <= 0x5a) || (0x30 <= b && b <= 0x39) || b == 0x2d
        || b == DOT || b == 0x5f || b == 0x7e || b == 0x21 || b == 0x24 || (0x26 <= b && b
        <= 0x2c) || b == 0x3b || b == 0x3d || b == 0x40 || b == SLASH
}

/// Finds the document that a request target names: see [`document_of`].
pub fn resolve(target: &[u8]) -> (document: Option<Vec<u8>>)
    ensures
        match document {
            Some(d) => document_of(target@) == Some(d@),
            None => document_of(target@) is None,
        },
{
    let mut end: usize = 0;
    while end < target.len() && target[end] != QUESTION && target[end] != HASH
        invariant
            end <= target.len(),
            path_end(target@, 0) == path_end(target@, end as int),
        decreases target.len() - end,
    {
        end += 1;
    }
    let ghost path = target@.subrange(0, end as int);
    if end == 0 || target[0] != SLASH {
        assert(path.len() == 0 || path[0] == target@[0]);
        return None;
    }
    let mut i: usize = 0;
    while i < end
        invariant
            i <= end <= target.len(),
            end == path_end(target@, 0),
            path == target@.subrange(0, end as int),
            forall|j: int| 0 <= j < i ==> is_path_byte(#[trigger] path[j]),
            forall|j: int|
                0 < j < i && path[j - 1] == SLASH ==> #[trigger] path[j] != DOT && path[j] != SLASH,
        decreases end - i,
    {
        let b = target[i];
        assert(b == path[i as int]);
        if !path_byte(b) {
            return None;
        }
        if i > 0 && target[i - 1] == SLASH && (b == DOT || b == SLASH) {
            assert(path[i - 1] == target@[i - 1]);
            return None;
        }
        assert(i > 0 ==> path[i - 1] == target@[i - 1]);
        i += 1;
    }
    assert(is_served_path(path));
    let mut document = slice_to_vec(slice_subrange(target, 1, end));
    assert(document@ == path.subrange(1, path.len() as int));
    assert(path.last() == target@[end - 1]);
    if target[end - 1] == SLASH {
        let index = "index.html".as_bytes();
        proof {
            reveal_strlit("index.html");
            broadcast use is_ascii_spec_bytes;

            assert(is_ascii("index.html"));
            assert(index@ =~= ascii("index.html"@));
        }
        let ghost before = document@;
        document.extend_from_slice(index);
        assert(document@ =~= before + ascii("index.html"@));
    }
    Some(document)
}

/// The status of a response.
#[derive(Debug, Clone, Copy, PartialEq, Eq, Structural)]
pub enum Status {
    /// 200: the document follows.
    Success,
    /// 400: the request line could not be read.
    BadRequest,
    /// 404: there is no such document.
    NotFound,
    /// 405: the method is not `GET`.
    MethodNotAllowed,
}

/// What the server does with a request.
#[derive(Debug)]
pub enum Answer {
    /// Send the document at `path`, which is relative to the document root.
    Send { path: Vec<u8> },
    /// Refuse the request with this status.
    Refuse(Status),
}

/// The mathematical content of an [`Answer`].
pub enum AnswerView {
    Send { path: Seq<u8> },
    Refuse(Status),
}

impl View for Answer {
    type V = AnswerView;

    open spec fn view(&self) -> AnswerView {
        match self {
            Answer::Send { path } => AnswerView::Send { path: path@ },
            Answer::Refuse(status) => AnswerView::Refuse(*status),
        }
    }
}

/// The answer to a request whose first bytes are `head`.
///
/// The request line is a method, a space, a target and a break. Without these
/// the request is bad. A method other than `GET` is not allowed: the frontend is
/// read-only. A target that names no document that may be served is not found.
pub open spec fn answer_to(head: Seq<u8>) -> AnswerView {
    let method_end = token_end(head, 0);
    let target_end = token_end(head, method_end + 1);
    if method_end == 0 || method_end >= head.len() || head[method_end] != SPACE || target_end
        == method_end + 1 || target_end >= head.len() {
        AnswerView::Refuse(Status::BadRequest)
    } else if head.subrange(0, method_end) != ascii("GET"@) {
        AnswerView::Refuse(Status::MethodNotAllowed)
    } else {
        match document_of(head.subrange(method_end + 1, target_end)) {
            Some(path) => AnswerView::Send { path },
            None => AnswerView::Refuse(Status::NotFound),
        }
    }
}

fn scan_token(data: &[u8], from: usize) -> (end: usize)
    requires
        from <= data.len(),
    ensures
        end == token_end(data@, from as int),
        from <= end <= data.len(),
{
    let mut end = from;
    while end < data.len() && data[end] != SPACE && data[end] != CR && data[end] != LF
        invariant
            from <= end <= data.len(),
            token_end(data@, from as int) == token_end(data@, end as int),
        decreases data.len() - end,
    {
        end += 1;
    }
    end
}

/// Decides the answer to a request from its first bytes, which hold at least the
/// request line: see [`answer_to`].
pub fn answer(head: &[u8]) -> (answer: Answer)
    ensures
        answer@ == answer_to(head@),
{
    let method_end = scan_token(head, 0);
    if method_end == 0 || method_end >= head.len() || head[method_end] != SPACE {
        return Answer::Refuse(Status::BadRequest);
    }
    let target_end = scan_token(head, method_end + 1);
    if target_end == method_end + 1 || target_end >= head.len() {
        return Answer::Refuse(Status::BadRequest);
    }
    let ghost method = head@.subrange(0, method_end as int);
    let ghost get = ascii("GET"@);
    proof {
        reveal_strlit("GET");
        assert(get.len() == 3 && get[0] == 0x47 && get[1] == 0x45 && get[2] == 0x54);
    }
    if method_end != 3 || head[0] != 0x47 || head[1] != 0x45 || head[2] != 0x54 {
        assert(method != get) by {
            if method_end == 3 {
                assert(method[0] == head@[0]);
                assert(method[1] == head@[1]);
                assert(method[2] == head@[2]);
            } else {
                assert(method.len() != get.len());
            }
        }
        return Answer::Refuse(Status::MethodNotAllowed);
    }
    assert(method =~= get);
    match resolve(slice_subrange(head, method_end + 1, target_end)) {
        Some(path) => Answer::Send { path },
        None => Answer::Refuse(Status::NotFound),
    }
}

/// The index of the last dot among the first `n` bytes of `path`, or -1 if
/// there is none.
pub open spec fn last_dot(path: Seq<u8>, n: int) -> int
    decreases n,
{
    if n <= 0 {
        -1
    } else if path[n - 1] == DOT {
        n - 1
    } else {
        last_dot(path, n - 1)
    }
}

/// What follows the last dot of `path`; nothing if it has no dot.
pub open spec fn extension(path: Seq<u8>) -> Seq<u8> {
    let dot = last_dot(path, path.len() as int);
    if dot < 0 {
        Seq::empty()
    } else {
        path.subrange(dot + 1, path.len() as int)
    }
}

/// The media type under which a document is sent, by the extension of its path.
/// Extensions are told apart by case; one that is not known gives
/// `application/octet-stream`.
pub open spec fn media_type(path: Seq<u8>) -> Seq<char> {
    let e = extension(path);
    if e == ascii("html"@) || e == ascii("htm"@) {
        "text/html; charset=utf-8"@
    } else if e == ascii("css"@) {
        "text/css; charset=utf-8"@
    } else if e == ascii("js"@) || e == ascii("mjs"@) {
        "text/javascript; charset=utf-8"@
    } else if e == ascii("json"@) {
        "application/json"@
    } else if e == ascii("txt"@) {
        "text/plain; charset=utf-8"@
    } else if e == ascii("svg"@) {
        "image/svg+xml"@
    } else if e == ascii("png"@) {
        "image/png"@
    } else if e == ascii("jpg"@) || e == ascii("jpeg"@) {
        "image/jpeg"@
    } else if e == ascii("gif"@) {
        "image/gif"@
    } else if e == ascii("ico"@) {
        "image/x-icon"@
    } else if e == ascii("wasm"@) {
        "application/wasm"@
    } else {
        "application/octet-stream"@
    }
}

fn is_word(path: &[u8], from: usize, word: &str) -> (same: bool)
    requires
        from <= path.len(),
        is_ascii(word),
    ensures
        same == (path@.subrange(from as int, path.len() as int) == ascii(word@)),
{
    let bytes = word.as_bytes();
    let ghost rest = path@.subrange(from as int, path.len() as int);
    proof {
        broadcast use is_ascii_spec_bytes;

        assert(bytes@ =~= ascii(word@));
    }
    if path.len() - from != bytes.len() {
        assert(rest.len() != ascii(word@).len());
        return false;
    }
    let mut i: usize = 0;
    while i < bytes.len()
        invariant
            i <= bytes.len(),
            from + bytes.len() == path.len(),
            bytes@ == ascii(word@),
            rest == path@.subrange(from as int, path.len() as int),
            forall|j: int| 0 <= j < i ==> #[trigger] rest[j] == bytes@[j],
        decreases bytes.len() - i,
    {
        if path[from + i] != bytes[i] {
            assert(rest[i as int] == path@[from + i]);
            return false;
        }
        assert(rest[i as int] == path@[from + i]);
        i += 1;
    }
    assert(rest =~= bytes@);
    true
}

/// Chooses the media type of a document: see [`media_type`].
pub fn content_type(path: &[u8]) -> (kind: &'static str)
    ensures
        kind@ == media_type(path@),
{
    let mut n: usize = path.len();
    while n > 0 && path[n - 1] != DOT
        invariant
            n <= path.len(),
            last_dot(path@, path.len() as int) == last_dot(path@, n as int),
        decreases n,
    {
        n -= 1;
    }
    let from = if n == 0 {
        path.len()
    } else {
        n
    };
    assert(extension(path@) =~= path@.subrange(from as int, path.len() as int));
    proof {
        reveal_strlit("html");
        reveal_strlit("htm");
        reveal_strlit("css");
        reveal_strlit("js");
        reveal_strlit("mjs");
        reveal_strlit("json");
        reveal_strlit("txt");
        reveal_strlit("svg");
        reveal_strlit("png");
        reveal_strlit("jpg");
        reveal_strlit("jpeg");
        reveal_strlit("gif");
        reveal_strlit("ico");
        reveal_strlit("wasm");
    }
    if is_word(path, from, "html") || is_word(path, from, "htm") {
        "text/html; charset=utf-8"
    } else if is_word(path, from, "css") {
        "text/css; charset=utf-8"
    } else if is_word(path, from, "js") || is_word(path, from, "mjs") {
        "text/javascript; charset=utf-8"
    } else if is_word(path, from, "json") {
        "application/json"
    } else if is_word(path, from, "txt") {
        "text/plain; charset=utf-8"
    } else if is_word(path, from, "svg") {
        "image/svg+xml"
    } else if is_word(path, from, "png") {
        "image/png"
    } else if is_word(path, from, "jpg") || is_word(path, from, "jpeg") {
        "image/jpeg"
    } else if is_word(path, from, "gif") {
        "image/gif"
    } else if is_word(path, from, "ico") {
        "image/x-icon"
    } else if is_word(path, from, "wasm") {
        "application/wasm"
    } else {
        "application/octet-stream"
    }
}

/// The status line of a response, after the protocol version.
pub open spec fn status_text(status: Status) -> Seq<char> {
    match status {
        Status::Success => "200 OK"@,
        Status::BadRequest => "400 Bad Request"@,
        Status::NotFound => "404 Not Found"@,
        Status::MethodNotAllowed => "405 Method Not Allowed"@,
    }
}

/// The head of a response: the status line, the type and the length of the
/// body, the notice that the connection closes, and the empty line.
pub open spec fn head_of(status: Status, kind: Seq<char>, length: nat) -> Seq<char> {
    "HTTP/1.1 "@ + status_text(status) + "\r\nContent-Type: "@ + kind + "\r\nContent-Length: "@
        + decimal(length) + "\r\nConnection: close\r\n\r\n"@
}

/// Writes the head of a response: see [`head_of`].
pub fn response_head(status: Status, kind: &str, length: usize) -> (head: String)
    ensures
        head@ == head_of(status, kind@, length as nat),
{
    let mut head = "HTTP/1.1 ".to_owned();
    head.append(
        match status {
            Status::Success => "200 OK",
            Status::BadRequest => "400 Bad Request",
            Status::NotFound => "404 Not Found",
            Status::MethodNotAllowed => "405 Method Not Allowed",
        },
    );
    head.append("\r\nContent-Type: ");
    head.append(kind);
    head.append("\r\nContent-Length: ");
    let digits = decimal_text(length);
    head.append(digits.as_str());
    head.append("\r\nConnection: close\r\n\r\n");
    head
}

/// The head of the response that sends the document at `path`, whose body has
/// `length` bytes.
pub fn document_head(path: &[u8], length: usize) -> (head: String)
    ensures
        head@ == head_of(Status::Success, media_type(path@), length as nat),
{
    response_head(Status::Success, content_type(path), length)
}

/// The head of the response that refuses a request. The response has no body.
pub fn refusal_head(status: Status) -> (head: String)
    ensures
        head@ == head_of(status, "text/plain; charset=utf-8"@, 0),
{
    response_head(status, "text/plain; charset=utf-8", 0)
}

} // verus!
