use vstd::prelude::*;
use vstd::string::*;

use crate::path::{path_segments, split_path};

verus! {

/// Marks the control plane: the first segment of every control path.
pub const CONTROL_MARKER: &'static str = "_control";

/// Version of the running software, reported by the version endpoint.
pub const VERSION: &'static str = "0.1.0";

pub const MSG_NOT_FOUND: &'static str = "Not found";

pub const MSG_METHOD_NOT_ALLOWED: &'static str = "Method not allowed";

pub const MSG_INTERNAL_SERVER_ERROR: &'static str = "Internal server error";

pub const MSG_NO_STUB: &'static str = "No stubbed response found";

pub const MSG_SHUTDOWN_TRIGGERED: &'static str = "{\"message\": \"Shutdown triggered\"}";

#[verifier::external_type_specification]
#[verifier::external_body]
#[verifier::reject_recursive_types(T)]
pub struct ExSender<T>(futures::sync::mpsc::Sender<T>);

#[verifier::external_type_specification]
#[verifier::external_body]
pub struct ExJsonError(serde_json::Error);

/// The method of an HTTP request.
#[derive(Clone, Copy, Debug, PartialEq, Eq, Structural)]
pub enum Method {
    Get,
    Post,
    Put,
    Delete,
    Head,
    Options,
    Patch,
    Trace,
    Connect,
    Other,
}

/// An operation of the stub store, reached under `/_control/responses` and
/// `/_control/requests`.
#[derive(Clone, Copy, Debug, PartialEq, Eq, Structural)]
pub enum StorageOp {
    ListResponses,
    DeleteResponses,
    AddResponse,
    GetResponse,
    DeleteResponse,
    FindRequests,
    DeleteRequests,
    GetRequest,
    DeleteRequest,
}

/// Where a request is dispatched to.
#[derive(Clone, Copy, Debug, PartialEq, Eq, Structural)]
pub enum Route {
    /// Report the software version.
    Version,
    /// Trigger a graceful shutdown.
    Shutdown,
    /// Handled by the stub store; the operation's item id, if any, is the
    /// third path segment.
    Storage(StorageOp),
    /// Not a control path: handled by stub matching.
    Stub,
    NotFound,
    MethodNotAllowed,
}

#[derive(Clone, Copy, Debug, PartialEq, Eq, Structural)]
pub enum ContentType {
    PlainText,
    Json,
}

/// A reply to an HTTP request. Its content length is that of the body in
/// UTF-8 (see `content_length`).
pub struct Reply {
    pub status: u16,
    pub content_type: ContentType,
    pub body: String,
}

impl Reply {
    /// The length of the body in bytes, as UTF-8.
    pub fn content_length(&self) -> (r: usize)
        ensures
            r == vstd::utf8::encode_utf8(self.body@).len() as usize,
    {
        self.body.as_str().len()
    }
}

pub struct ReplyModel {
    pub status: u16,
    pub content_type: ContentType,
    pub body: Seq<char>,
}

impl View for Reply {
    type V = ReplyModel;

    open spec fn view(&self) -> ReplyModel {
        ReplyModel { status: self.status, content_type: self.content_type, body: self.body@ }
    }
}

pub open spec fn reply_model(status: u16, content_type: ContentType, body: Seq<char>) -> ReplyModel {
    ReplyModel { status, content_type, body }
}

pub open spec fn text_model(status: u16, text: Seq<char>) -> ReplyModel {
    reply_model(status, ContentType::PlainText, text)
}

/// A JSON object with one member, `key` mapped to the already encoded `value`.
pub open spec fn json_member(key: Seq<char>, value: Seq<char>) -> Seq<char> {
    "{\""@ + key + "\":"@ + value + "}"@
}

/// What serde_json writes for a string: the text as a JSON string literal.
pub uninterp spec fn json_quoted(s: Seq<char>) -> Seq<char>;

/// Characters that JSON writes inside a string literal without escaping.
pub open spec fn json_plain_char(c: char) -> bool {
    c != '"' && c != '\\' && c as u32 >= 0x20
}

pub open spec fn json_plain(s: Seq<char>) -> bool {
    forall|i: int| 0 <= i < s.len() ==> json_plain_char(#[trigger] s[i])
}

/// A JSON string literal of text that needs no escaping.
pub open spec fn json_string(s: Seq<char>) -> Seq<char> {
    seq!['"'] + s + seq!['"']
}

/// Relies on `serde_json::to_string` on a `str`: the string is written as a
/// JSON string literal into an in-memory buffer, which cannot fail; a string
/// with no quote, backslash or control character is written between two
/// quotes as it is.
#[verifier::external_body]
fn encode_json_str(s: &str) -> (r: Result<String, serde_json::Error>)
    ensures
        r is Ok,
        r is Ok ==> r->Ok_0@ == json_quoted(s@),
        r is Ok && json_plain(s@) ==> r->Ok_0@ == json_string(s@),
{
    serde_json::to_string(s)
}

/// Relies on futures' `Sender::clone` and `Sender::try_send`: offers one
/// shutdown message on a fresh handle of the channel without ever waiting;
/// `false` where the channel is full or its receiving end is gone. Whether it
/// is queued depends on the channel's state, so nothing is stated of it.
#[verifier::external_body]
fn try_queue_shutdown(sender: &futures::sync::mpsc::Sender<()>) -> (r: bool) {
    sender.clone().try_send(()).is_ok()
}

/// Whether two strings hold the same characters.
pub fn same_text(a: &str, b: &str) -> (r: bool)
    ensures
        r == (a@ == b@),
{
    let n = a.unicode_len();
    let m = b.unicode_len();
    if n != m {
        return false;
    }
    let mut i: usize = 0;
    while i < n
        invariant
            n == a@.len(),
            n == b@.len(),
            i <= n,
            a@.subrange(0, i as int) == b@.subrange(0, i as int),
        decreases n - i,
    {
        if a.get_char(i) != b.get_char(i) {
            return false;
        }
        assert(a@.subrange(0, i + 1) =~= a@.subrange(0, i as int).push(a@[i as int]));
        assert(b@.subrange(0, i + 1) =~= b@.subrange(0, i as int).push(b@[i as int]));
        i = i + 1;
    }
    assert(a@ =~= a@.subrange(0, n as int));
    assert(b@ =~= b@.subrange(0, n as int));
    true
}

pub open spec fn responses_route_of(m: Method, rest: int) -> Route {
    if rest == 0 {
        match m {
            Method::Get => Route::Storage(StorageOp::ListResponses),
            Method::Delete => Route::Storage(StorageOp::DeleteResponses),
            Method::Post => Route::Storage(StorageOp::AddResponse),
            _ => Route::MethodNotAllowed,
        }
    } else if rest == 1 {
        match m {
            Method::Get => Route::Storage(StorageOp::GetResponse),
            Method::Delete => Route::Storage(StorageOp::DeleteResponse),
            _ => Route::MethodNotAllowed,
        }
    } else {
        Route::NotFound
    }
}

pub open spec fn requests_route_of(m: Method, rest: int) -> Route {
    if rest == 0 {
        match m {
            Method::Get => Route::Storage(StorageOp::FindRequests),
            Method::Delete => Route::Storage(StorageOp::DeleteRequests),
            _ => Route::MethodNotAllowed,
        }
    } else if rest == 1 {
        match m {
            Method::Get => Route::Storage(StorageOp::GetRequest),
            Method::Delete => Route::Storage(StorageOp::DeleteRequest),
            _ => Route::MethodNotAllowed,
        }
    } else {
        Route::NotFound
    }
}

/// Route of a request under the control marker, by the segments after it.
pub open spec fn control_route_of(m: Method, tail: Seq<Seq<char>>) -> Route {
    if tail.len() == 1 && tail[0] == "shutdown"@ {
        if m == Method::Post {
            Route::Shutdown
        } else {
            Route::MethodNotAllowed
        }
    } else if tail.len() == 1 && tail[0] == "version"@ {
        if m == Method::Get {
            Route::Version
        } else {
            Route::MethodNotAllowed
        }
    } else if tail.len() >= 1 && tail[0] == "responses"@ {
        responses_route_of(m, tail.len() - 1)
    } else if tail.len() >= 1 && tail[0] == "requests"@ {
        requests_route_of(m, tail.len() - 1)
    } else {
        Route::NotFound
    }
}

/// Route of a request by its method and normalised path segments.
pub open spec fn route_of(m: Method, segs: Seq<Seq<char>>) -> Route {
    if segs.len() == 0 || segs[0] != CONTROL_MARKER@ {
        Route::Stub
    } else {
        control_route_of(m, segs.drop_first())
    }
}

/// The reply that a route gets.
pub open spec fn route_reply(route: Route) -> ReplyModel {
    match route {
        Route::Version => reply_model(200, ContentType::Json, json_member("version"@, json_string(VERSION@))),
        Route::Shutdown => reply_model(202, ContentType::Json, MSG_SHUTDOWN_TRIGGERED@),
        Route::Storage(_) => text_model(404, MSG_NOT_FOUND@),
        Route::Stub => text_model(404, MSG_NO_STUB@),
        Route::NotFound => text_model(404, MSG_NOT_FOUND@),
        Route::MethodNotAllowed => text_model(405, MSG_METHOD_NOT_ALLOWED@),
    }
}

/// The version needs no escaping in JSON.
proof fn lemma_version_json_plain()
    ensures
        json_plain(VERSION@),
{
    reveal_strlit("0.1.0");
    assert(VERSION@ =~= seq!['0', '.', '1', '.', '0']);
}

/// A non-empty run of decimal digits.
pub open spec fn is_decimal(s: Seq<char>) -> bool {
    s.len() > 0 && forall|i: int| 0 <= i < s.len() ==> '0' <= #[trigger] s[i] <= '9'
}

/// Three decimal numbers separated by dots.
pub open spec fn is_version_number(s: Seq<char>) -> bool {
    exists|a: Seq<char>, b: Seq<char>, c: Seq<char>|
        is_decimal(a) && is_decimal(b) && is_decimal(c) && s == a + seq!['.'] + b + seq!['.'] + c
}

/// A GET to any path that normalises to the version endpoint is answered 200
/// with a JSON object whose `version` member is a string of three decimal
/// numbers separated by dots.
pub proof fn lemma_version_reply(path: Seq<char>)
    requires
        path_segments(path) == seq![CONTROL_MARKER@, "version"@],
    ensures
        route_of(Method::Get, path_segments(path)) == Route::Version,
        route_reply(route_of(Method::Get, path_segments(path))) == reply_model(
            200,
            ContentType::Json,
            json_member("version"@, json_string(VERSION@)),
        ),
        is_version_number(VERSION@),
{
    reveal_strlit("version");
    reveal_strlit("shutdown");
    reveal_strlit("0.1.0");
    let segs = path_segments(path);
    assert(segs.drop_first() =~= seq!["version"@]);
    assert("version"@ != "shutdown"@) by {
        assert("version"@[0] != "shutdown"@[0]);
    }
    let a = seq!['0'];
    let b = seq!['1'];
    assert(VERSION@ =~= a + seq!['.'] + b + seq!['.'] + a);
    assert(is_decimal(a) && is_decimal(b));
}

/// A POST to any path that normalises to the shutdown endpoint is routed to
/// the shutdown and answered 202 with the fixed acknowledgement; every other
/// method there is routed as not allowed, answered 405, and so does not ask
/// for a shutdown.
pub proof fn lemma_shutdown_reply(method: Method, path: Seq<char>)
    requires
        path_segments(path) == seq![CONTROL_MARKER@, "shutdown"@],
    ensures
        method == Method::Post ==> route_of(method, path_segments(path)) == Route::Shutdown,
        method == Method::Post ==> route_reply(route_of(method, path_segments(path))) == reply_model(
            202,
            ContentType::Json,
            MSG_SHUTDOWN_TRIGGERED@,
        ),
        method != Method::Post ==> route_of(method, path_segments(path)) == Route::MethodNotAllowed,
        method != Method::Post ==> route_reply(route_of(method, path_segments(path))).status == 405,
        method != Method::Post ==> route_of(method, path_segments(path)) != Route::Shutdown,
{
    let segs = path_segments(path);
    assert(segs.drop_first() =~= seq!["shutdown"@]);
}

fn responses_route(m: Method, rest: usize) -> (r: Route)
    ensures
        r == responses_route_of(m, rest as int),
{
    if rest == 0 {
        match m {
            Method::Get => Route::Storage(StorageOp::ListResponses),
            Method::Delete => Route::Storage(StorageOp::DeleteResponses),
            Method::Post => Route::Storage(StorageOp::AddResponse),
            _ => Route::MethodNotAllowed,
        }
    } else if rest == 1 {
        match m {
            Method::Get => Route::Storage(StorageOp::GetResponse),
            Method::Delete => Route::Storage(StorageOp::DeleteResponse),
            _ => Route::MethodNotAllowed,
        }
    } else {
        Route::NotFound
    }
}

fn requests_route(m: Method, rest: usize) -> (r: Route)
    ensures
        r == requests_route_of(m, rest as int),
{
    if rest == 0 {
        match m {
            Method::Get => Route::Storage(StorageOp::FindRequests),
            Method::Delete => Route::Storage(StorageOp::DeleteRequests),
            _ => Route::MethodNotAllowed,
        }
    } else if rest == 1 {
        match m {
            Method::Get => Route::Storage(StorageOp::GetRequest),
            Method::Delete => Route::Storage(StorageOp::DeleteRequest),
            _ => Route::MethodNotAllowed,
        }
    } else {
        Route::NotFound
    }
}

/// Routes a request under the control marker; `path` still holds the marker.
fn control_route(m: Method, path: &[&str]) -> (r: Route)
    requires
        path@.len() >= 1,
    ensures
        r == control_route_of(m, path@.map_values(|s: &str| s@).drop_first()),
{
    let ghost tail = path@.map_values(|s: &str| s@).drop_first();
    let n = path.len();
    assert(tail.len() == n - 1);
    if n == 1 {
        return Route::NotFound;
    }
    assert(tail[0] == path@[1]@);
    let head = path[1];
    if n == 2 && same_text(head, "shutdown") {
        match m {
            Method::Post => Route::Shutdown,
            _ => Route::MethodNotAllowed,
        }
    } else if n == 2 && same_text(head, "version") {
        match m {
            Method::Get => Route::Version,
            _ => Route::MethodNotAllowed,
        }
    } else if same_text(head, "responses") {
        responses_route(m, n - 2)
    } else if same_text(head, "requests") {
        requests_route(m, n - 2)
    } else {
        Route::NotFound
    }
}

/// Routes a request by its method and normalised path segments.
pub fn route(m: Method, path: &[&str]) -> (r: Route)
    ensures
        r == route_of(m, path@.map_values(|s: &str| s@)),
{
    let ghost segs = path@.map_values(|s: &str| s@);
    if path.len() == 0 {
        return Route::Stub;
    }
    assert(segs[0] == path@[0]@);
    if !same_text(path[0], CONTROL_MARKER) {
        return Route::Stub;
    }
    control_route(m, path)
}

fn plain(status: u16, text: &str) -> (r: Reply)
    ensures
        r@ == text_model(status, text@),
{
    Reply { status, content_type: ContentType::PlainText, body: text.to_owned() }
}

pub fn not_found() -> (r: Reply)
    ensures
        r@ == text_model(404, MSG_NOT_FOUND@),
{
    plain(404, MSG_NOT_FOUND)
}

pub fn method_not_allowed() -> (r: Reply)
    ensures
        r@ == text_model(405, MSG_METHOD_NOT_ALLOWED@),
{
    plain(405, MSG_METHOD_NOT_ALLOWED)
}

pub fn internal_server_error() -> (r: Reply)
    ensures
        r@ == text_model(500, MSG_INTERNAL_SERVER_ERROR@),
{
    plain(500, MSG_INTERNAL_SERVER_ERROR)
}

pub fn no_stub_found() -> (r: Reply)
    ensures
        r@ == text_model(404, MSG_NO_STUB@),
{
    plain(404, MSG_NO_STUB)
}

/// A JSON reply of one member, `key` mapped to the encoded value; a failed
/// encoding gives an internal server error.
pub fn ok_json(key: &str, encoded: Result<String, serde_json::Error>) -> (r: Reply)
    ensures
        encoded is Ok ==> r@ == reply_model(200, ContentType::Json, json_member(key@, encoded->Ok_0@)),
        encoded is Err ==> r@ == text_model(500, MSG_INTERNAL_SERVER_ERROR@),
{
    match encoded {
        Ok(value) => {
            let mut body = String::from_str("{\"");
            body.append(key);
            body.append("\":");
            body.append(value.as_str());
            body.append("}");
            Reply { status: 200, content_type: ContentType::Json, body }
        },
        Err(_) => internal_server_error(),
    }
}

/// The answer to a request, and whether the request asks for a shutdown.
pub struct Dispatch {
    pub reply: Reply,
    pub shutdown: bool,
}

/// Serves the control plane; a shutdown asked for by a request is queued on
/// `shutdown_promise` with `signal_shutdown`.
pub struct HttpService {
    pub shutdown_promise: futures::sync::mpsc::Sender<()>,
}

impl HttpService {
    /// Answers a request by its method and raw path, and says whether it asks
    /// for a shutdown: only the shutdown route does. No stub store or stub
    /// matcher is attached, so the store's routes are not found and other
    /// paths match no stub.
    pub fn handle(&self, method: Method, path: &str) -> (r: Dispatch)
        ensures
            r.reply@ == route_reply(route_of(method, path_segments(path@))),
            r.shutdown == (route_of(method, path_segments(path@)) == Route::Shutdown),
    {
        let segs = split_path(path);
        let route = route(method, segs.as_slice());
        match route {
            Route::Version => Dispatch { reply: self.handle_control_version(method), shutdown: false },
            Route::Shutdown => self.handle_control_shutdown(method),
            Route::Storage(_) => Dispatch { reply: not_found(), shutdown: false },
            Route::Stub => Dispatch { reply: no_stub_found(), shutdown: false },
            Route::NotFound => Dispatch { reply: not_found(), shutdown: false },
            Route::MethodNotAllowed => Dispatch { reply: method_not_allowed(), shutdown: false },
        }
    }

    /// A POST asks for a shutdown and is accepted; any other method is not
    /// allowed and asks for nothing.
    pub fn handle_control_shutdown(&self, method: Method) -> (r: Dispatch)
        ensures
            method == Method::Post ==> r.reply@ == route_reply(Route::Shutdown),
            method != Method::Post ==> r.reply@ == route_reply(Route::MethodNotAllowed),
            r.shutdown == (method == Method::Post),
    {
        match method {
            Method::Post => Dispatch {
                reply: Reply {
                    status: 202,
                    content_type: ContentType::Json,
                    body: MSG_SHUTDOWN_TRIGGERED.to_owned(),
                },
                shutdown: true,
            },
            _ => Dispatch { reply: method_not_allowed(), shutdown: false },
        }
    }

    /// Queues a shutdown message without waiting; `false` where it could not
    /// be queued (the channel is full, or the server has already stopped).
    pub fn signal_shutdown(&self) -> bool {
        try_queue_shutdown(&self.shutdown_promise)
    }

    /// A GET reports the version as a JSON object; any other method is not
    /// allowed.
    pub fn handle_control_version(&self, method: Method) -> (r: Reply)
        ensures
            method == Method::Get ==> r@ == route_reply(Route::Version),
            method != Method::Get ==> r@ == route_reply(Route::MethodNotAllowed),
    {
        proof {
            lemma_version_json_plain();
        }
        match method {
            Method::Get => ok_json("version", encode_json_str(VERSION)),
            _ => method_not_allowed(),
        }
    }
}

} // verus!
