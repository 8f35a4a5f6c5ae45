use vstd::prelude::*;

use crate::error::{Error, ErrorCode};

verus! {

/// A Hat is a piece of headwear made by a Haberdasher.
#[derive(Debug, Clone, PartialEq, Default)]
pub struct Hat {
    /// The size of a hat should always be in inches.
    pub size: i32,
    /// The color of a hat will never be 'invisible', but other than
    /// that, anything is fair game.
    pub color: String,
    /// The name of a hat is it's type. Like, 'bowler', or something.
    pub name: String,
}

/// Size is passed when requesting a new hat to be made. It's always
/// measured in inches.
#[derive(Debug, Clone, Copy, PartialEq, Eq, Structural, Default)]
pub struct Size {
    pub inches: i32,
}

/// A Haberdasher makes hats for clients.
pub trait Haberdasher {
    /// `res` is an answer that this service may give to the request `r`.
    /// A service that says nothing of its answers may give any answer.
    open spec fn made(&self, r: Size, res: Result<Hat, Error>) -> bool {
        true
    }

    /// MakeHat produces a hat of mysterious, randomly-selected color!
    fn make_hat(&self, r: Size) -> (res: Result<Hat, Error>)
        ensures
            self.made(r, res),
    ;
}

/// An HTTP answer: its status, its headers in order, and its body.
#[derive(Debug, Clone)]
pub struct Reply {
    pub status: u16,
    pub headers: Vec<(String, String)>,
    pub body: String,
}

/// What routing decided for a request that passed the method check.
#[derive(Debug, Clone)]
pub enum Route {
    /// Answer at once with this reply.
    Reply(Reply),
    /// The request calls the MakeHat RPC: decode its body as a `Size`.
    MakeHat,
}

/// What the server does with a decoded (or undecodable) request body.
#[derive(Debug)]
pub enum Handled {
    /// Answer at once with this reply.
    Reply(Reply),
    /// Encode this answer of the service as JSON and send it.
    Encode(Result<Hat, Error>),
}

/// Where the server stands in answering one request.
#[derive(Debug)]
pub enum Phase {
    /// Nothing is known of the request yet.
    Start,
    /// A `POST` to this URL path whose body is being read.
    BodyPending(String),
    /// A MakeHat request whose body is being decoded as a `Size`.
    Decoding,
    /// The service's answer is being encoded as JSON.
    Encoding,
    /// The answer was sent; nothing is left to do.
    Done,
}

/// What the outside world reports to the server.
#[derive(Debug)]
pub enum Event {
    /// A request came with this method and this URL path.
    Request(String, String),
    /// The request's body was read.
    BodyRead,
    /// The body decoded as a `Size`, or failed to with this error text.
    Decoded(Result<Size, String>),
    /// The answer encoded as this JSON text, or failed to with this error text.
    Encoded(Result<String, String>),
}

/// What the server asks the outside world to do next.
#[derive(Debug)]
pub enum Action {
    /// Read the request's body, then report `Event::BodyRead`.
    ReadBody,
    /// Decode the body as a `Size`, then report `Event::Decoded`.
    Decode,
    /// Encode this answer of the service, then report `Event::Encoded`.
    Encode(Result<Hat, Error>),
    /// Send this reply; the exchange is over.
    Send(Reply),
}

/// The event that a phase waits for.
pub open spec fn fits(phase: Phase, event: Event) -> bool {
    match phase {
        Phase::Start => event is Request,
        Phase::BodyPending(_) => event is BodyRead,
        Phase::Decoding => event is Decoded,
        Phase::Encoding => event is Encoded,
        Phase::Done => false,
    }
}

/// The phase that follows an action is the one that waits for the event
/// the action reports.
pub open spec fn follows(phase: Phase, action: Action) -> bool {
    match action {
        Action::ReadBody => phase is BodyPending,
        Action::Decode => phase is Decoding,
        Action::Encode(_) => phase is Encoding,
        Action::Send(_) => phase is Done,
    }
}

/// Whether `event` is the one that `phase` waits for.
pub fn event_fits(phase: &Phase, event: &Event) -> (b: bool)
    ensures
        b == fits(*phase, *event),
{
    match phase {
        Phase::Start => matches!(event, Event::Request(_, _)),
        Phase::BodyPending(_) => matches!(event, Event::BodyRead),
        Phase::Decoding => matches!(event, Event::Decoded(_)),
        Phase::Encoding => matches!(event, Event::Encoded(_)),
        Phase::Done => false,
    }
}

/// The URL path of the MakeHat RPC.
pub open spec fn make_hat_path() -> Seq<char> {
    "/twirp/twitch.twirp.example/MakeHat"@
}

/// The headers of every JSON answer of the server.
pub open spec fn json_headers() -> Seq<(Seq<char>, Seq<char>)> {
    seq![
        ("Content-Type"@, "application/json"@),
        ("Access-Control-Allow-Origin"@, "*"@),
        ("Access-Control-Allow-Methods"@, "DELETE, POST, GET, OPTIONS"@),
        (
            "Access-Control-Allow-Headers"@,
            "Content-Type, Access-Control-Allow-Headers, Authorization, X-Requested-With"@,
        ),
    ]
}

/// `r` has the given status and body and the JSON answer headers.
pub open spec fn json_reply_of(r: Reply, status: u16, body: Seq<char>) -> bool {
    &&& r.status == status
    &&& r.headers.deep_view() == json_headers()
    &&& r.body@ == body
}

/// A reply with the JSON answer headers.
pub fn json_reply(status: u16, body: String) -> (r: Reply)
    ensures
        json_reply_of(r, status, body@),
{
    let mut headers: Vec<(String, String)> = Vec::new();
    headers.push((String::from_str("Content-Type"), String::from_str("application/json")));
    headers.push((String::from_str("Access-Control-Allow-Origin"), String::from_str("*")));
    headers.push(
        (
            String::from_str("Access-Control-Allow-Methods"),
            String::from_str("DELETE, POST, GET, OPTIONS"),
        ),
    );
    headers.push(
        (
            String::from_str("Access-Control-Allow-Headers"),
            String::from_str(
                "Content-Type, Access-Control-Allow-Headers, Authorization, X-Requested-With",
            ),
        ),
    );
    assert(headers.deep_view() =~= json_headers());
    Reply { status, headers, body }
}

/// The answer to a request method, before the body is read: an `OPTIONS`
/// request (a CORS preflight) is answered with 200 and an empty body, any
/// method but `POST` with 405; a `POST` request goes on (`None`).
pub fn route_method(method: &str) -> (r: Option<Reply>)
    ensures
        method@ == "OPTIONS"@ ==> (r matches Some(reply) && json_reply_of(reply, 200, ""@)),
        method@ != "OPTIONS"@ && method@ != "POST"@ ==> (r matches Some(reply) && json_reply_of(
            reply,
            405,
            "method not allowed"@,
        )),
        method@ == "POST"@ ==> r is None,
{
    proof {
        reveal_strlit("OPTIONS");
        reveal_strlit("POST");
        assert("OPTIONS"@.len() == 7 && "POST"@.len() == 4);
    }
    let m = method.to_owned();
    if m == String::from_str("OPTIONS") {
        Some(json_reply(200, String::from_str("")))
    } else if !(m == String::from_str("POST")) {
        Some(json_reply(405, String::from_str("method not allowed")))
    } else {
        None
    }
}

/// The route of a `POST` request by its URL path: the MakeHat RPC, or 404.
pub fn route_path(path: &str) -> (r: Route)
    ensures
        path@ == make_hat_path() ==> r is MakeHat,
        path@ != make_hat_path() ==> (r matches Route::Reply(reply) && json_reply_of(
            reply,
            404,
            "route not found"@,
        )),
{
    let p = path.to_owned();
    if p == String::from_str("/twirp/twitch.twirp.example/MakeHat") {
        Route::MakeHat
    } else {
        Route::Reply(json_reply(404, String::from_str("route not found")))
    }
}

/// `r` answers the encoding outcome `json`: the JSON text with status 200
/// and the JSON answer headers, or, where encoding failed, a bare 200
/// answer that names the encoding error.
pub open spec fn encoded_reply_of(json: Result<String, String>, r: Reply) -> bool {
    &&& json matches Ok(text) ==> json_reply_of(r, 200, text@)
    &&& json matches Err(e) ==> (r.status == 200 && r.headers@.len() == 0 && r.body@
        == "serialization error: "@ + e@)
}

/// The answer once the service's answer was encoded: the JSON text with
/// status 200, or, where encoding failed, a bare 200 answer that names the
/// encoding error.
pub fn encoded_reply(json: Result<String, String>) -> (r: Reply)
    ensures
        encoded_reply_of(json, r),
{
    match json {
        Ok(text) => json_reply(200, text),
        Err(e) => {
            let mut body = String::from_str("serialization error: ");
            body.append(e.as_str());
            Reply { status: 200, headers: Vec::new(), body }
        },
    }
}

/// The server of the Haberdasher service over a service implementation.
pub struct HaberdasherServer<S: Haberdasher + Send + Sync + 'static> {
    service_impl: S,
}

impl<S: Haberdasher + Send + Sync + 'static> HaberdasherServer<S> {
    /// The service implementation that the server calls.
    pub closed spec fn service(&self) -> S {
        self.service_impl
    }

    pub fn new(service_impl: S) -> (srv: HaberdasherServer<S>)
        ensures
            srv.service() == service_impl,
    {
        HaberdasherServer { service_impl: service_impl }
    }

    /// Handles the body of a MakeHat request: a body that did not decode
    /// as a `Size` is answered with 405 and the decoding error; a decoded
    /// `Size` is handed to the stored service, and the service's answer to
    /// it is what is to be encoded.
    pub fn handle_make_hat(&self, decoded: Result<Size, String>) -> (h: Handled)
        ensures
            decoded matches Err(e) ==> (h matches Handled::Reply(reply) && json_reply_of(
                reply,
                405,
                "error deserializing Size: "@ + e@,
            )),
            decoded matches Ok(r) ==> (h matches Handled::Encode(res) && self.service().made(
                r,
                res,
            )),
    {
        match decoded {
            Ok(rpc_req) => Handled::Encode(self.service_impl.make_hat(rpc_req)),
            Err(e) => {
                let mut body = String::from_str("error deserializing Size: ");
                body.append(e.as_str());
                Handled::Reply(json_reply(405, body))
            },
        }
    }
}

impl<S: Haberdasher + Send + Sync + 'static> HaberdasherServer<S> {
    /// One step of answering a request, in the order the server decides:
    /// the method first (an `OPTIONS` request gets 200 and any other
    /// method but `POST` gets 405, whatever the path, without the body
    /// being read), then, once the body was read, the path (404 unless it
    /// is MakeHat's), then the decoded body (405 when it did not decode,
    /// otherwise the service's answer to it is encoded), and at last the
    /// encoded answer. The service is called only in the decoding step.
    pub fn step(&self, phase: Phase, event: Event) -> (next: (Phase, Action))
        requires
            fits(phase, event),
        ensures
            follows(next.0, next.1),
            phase is Start ==> (event matches Event::Request(m, p) && {
                &&& m@ == "OPTIONS"@ ==> (next.1 matches Action::Send(r) && json_reply_of(
                    r,
                    200,
                    ""@,
                ))
                &&& m@ != "OPTIONS"@ && m@ != "POST"@ ==> (next.1 matches Action::Send(r)
                    && json_reply_of(r, 405, "method not allowed"@))
                &&& m@ == "POST"@ ==> next.1 is ReadBody
                &&& m@ == "POST"@ ==> (next.0 matches Phase::BodyPending(q) && q@ == p@)
            }),
            phase matches Phase::BodyPending(p) ==> {
                &&& p@ == make_hat_path() ==> next.1 is Decode
                &&& p@ != make_hat_path() ==> (next.1 matches Action::Send(r) && json_reply_of(
                    r,
                    404,
                    "route not found"@,
                ))
            },
            phase is Decoding ==> (event matches Event::Decoded(d) && {
                &&& d matches Err(e) ==> (next.1 matches Action::Send(r) && json_reply_of(
                    r,
                    405,
                    "error deserializing Size: "@ + e@,
                ))
                &&& d matches Ok(req) ==> (next.1 matches Action::Encode(res)
                    && self.service().made(req, res))
            }),
            phase is Encoding ==> (event matches Event::Encoded(j) && next.1 matches Action::Send(
                r,
            ) && encoded_reply_of(j, r)),
    {
        match phase {
            Phase::Start => match event {
                Event::Request(method, path) => match route_method(method.as_str()) {
                    Some(reply) => (Phase::Done, Action::Send(reply)),
                    None => (Phase::BodyPending(path), Action::ReadBody),
                },
                _ => vstd::pervasive::unreached(),
            },
            Phase::BodyPending(path) => match route_path(path.as_str()) {
                Route::Reply(reply) => (Phase::Done, Action::Send(reply)),
                Route::MakeHat => (Phase::Decoding, Action::Decode),
            },
            Phase::Decoding => match event {
                Event::Decoded(decoded) => match self.handle_make_hat(decoded) {
                    Handled::Reply(reply) => (Phase::Done, Action::Send(reply)),
                    Handled::Encode(res) => (Phase::Encoding, Action::Encode(res)),
                },
                _ => vstd::pervasive::unreached(),
            },
            Phase::Encoding => match event {
                Event::Encoded(json) => (Phase::Done, Action::Send(encoded_reply(json))),
                _ => vstd::pervasive::unreached(),
            },
            Phase::Done => vstd::pervasive::unreached(),
        }
    }
}

/// The example's Haberdasher, which makes no hats yet.
pub struct Haber;

impl Haberdasher for Haber {
    /// The example service answers every request with the same error.
    open spec fn made(&self, r: Size, res: Result<Hat, Error>) -> bool {
        res matches Err(e) && e.code == ErrorCode::Internal && e.msg@ == "make_hat not implemented"@
    }

    fn make_hat(&self, _r: Size) -> (res: Result<Hat, Error>)
        ensures
            res matches Err(e) && e.code == ErrorCode::Internal && e.msg@
                == "make_hat not implemented"@,
    {
        Err("make_hat not implemented".into())
    }
}

} // verus!
