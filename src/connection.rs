//! One connection's exchange as a state machine: read the request line,
//! ask the route handler for a response, read its body, write it out.
//! The caller performs each action and feeds back what came of it.
use vstd::prelude::*;
use vstd::utf8::encode_utf8;
use crate::model::{Error, HttpRequest, HttpResponse};
use crate::request_line::{read_http_request, request_line_outcome};
use crate::response::{ascii_bytes, decimal, render_http_response, response_bytes};

verus! {

/// Where one connection's exchange stands.
#[derive(Debug)]
pub enum ConnectionState {
    /// Waiting for the request line.
    ReadingRequest,
    /// The request has been handed to the route handler.
    AwaitingHandler,
    /// The response is chosen; its body source is being read.
    ReadingBody(HttpResponse),
    /// The framed response is being written.
    Writing,
    /// Nothing more happens on this connection.
    Closed,
}

/// What came of the last action.
#[derive(Debug)]
pub enum ConnectionEvent {
    LineRead(String),
    ReadFailed(std::io::Error),
    Handled(Result<HttpResponse, Error>),
    BodyRead(String),
    BodyFailed(std::io::Error),
    Written,
    WriteFailed(std::io::Error),
}

/// What the caller is to do next.
#[derive(Debug)]
pub enum ConnectionAction {
    /// Read one line, up to and including its newline.
    ReadLine,
    /// Call the route handler on this request.
    Handle(HttpRequest),
    /// Read the whole file of this name as text.
    ReadBody(String),
    /// Write these bytes and flush.
    Write(Vec<u8>),
    /// The exchange is over; drop the connection.
    Close,
    /// The exchange failed; report the error and drop the connection.
    Fail(Error),
}

/// The body source answered when the route handler fails.
pub open spec fn fallback_body_source() -> Seq<char> {
    "500.html"@
}

/// The response sent when the route handler fails.
pub open spec fn is_fallback_response(r: HttpResponse) -> bool {
    r@.0 is ServerError && r@.0.code() == 500 && r@.1 == fallback_body_source()
}

/// One step of the exchange: from state `s`, on event `e`, the machine
/// moves to `s2` and asks for `a`.
pub open spec fn transition(
    s: ConnectionState,
    e: ConnectionEvent,
    s2: ConnectionState,
    a: ConnectionAction,
) -> bool {
    match (s, e) {
        (ConnectionState::ReadingRequest, ConnectionEvent::LineRead(line)) => {
            match request_line_outcome(line@) {
                Ok((m, p)) => s2 is AwaitingHandler && (a matches ConnectionAction::Handle(req)
                    && req@ == (m, p) && req.wf()),
                Err(err) => s2 is Closed && a == ConnectionAction::Fail(err),
            }
        },
        (ConnectionState::ReadingRequest, ConnectionEvent::ReadFailed(io)) => {
            s2 is Closed && a == ConnectionAction::Fail(Error::Io(io))
        },
        (ConnectionState::AwaitingHandler, ConnectionEvent::Handled(Ok(resp))) => {
            s2 == ConnectionState::ReadingBody(resp) && (a matches ConnectionAction::ReadBody(f)
                && f@ == resp@.1)
        },
        (ConnectionState::AwaitingHandler, ConnectionEvent::Handled(Err(_))) => {
            (s2 matches ConnectionState::ReadingBody(resp) && is_fallback_response(resp))
                && (a matches ConnectionAction::ReadBody(f) && f@ == fallback_body_source())
        },
        (ConnectionState::ReadingBody(resp), ConnectionEvent::BodyRead(contents)) => {
            s2 is Writing && (a matches ConnectionAction::Write(bytes) && bytes@ == response_bytes(
                resp@.0,
                encode_utf8(contents@),
            ))
        },
        (ConnectionState::ReadingBody(_), ConnectionEvent::BodyFailed(io)) => {
            s2 is Closed && a == ConnectionAction::Fail(Error::Io(io))
        },
        (ConnectionState::Writing, ConnectionEvent::Written) => s2 is Closed && a is Close,
        (ConnectionState::Writing, ConnectionEvent::WriteFailed(io)) => {
            s2 is Closed && a == ConnectionAction::Fail(Error::Io(io))
        },
        // An event that does not answer the last action ends the exchange.
        _ => s2 is Closed && a is Close,
    }
}

impl ConnectionState {
    /// A freshly accepted connection: the first thing to do is read the
    /// request line.
    pub fn start() -> (r: (ConnectionState, ConnectionAction))
        ensures
            r.0 is ReadingRequest,
            r.1 is ReadLine,
    {
        (ConnectionState::ReadingRequest, ConnectionAction::ReadLine)
    }

    /// Advances the exchange by one event.
    pub fn step(self, event: ConnectionEvent) -> (r: (ConnectionState, ConnectionAction))
        ensures
            transition(self, event, r.0, r.1),
    {
        match (self, event) {
            (ConnectionState::ReadingRequest, ConnectionEvent::LineRead(line)) => {
                match read_http_request(line.as_str()) {
                    Ok(req) => (ConnectionState::AwaitingHandler, ConnectionAction::Handle(req)),
                    Err(err) => (ConnectionState::Closed, ConnectionAction::Fail(err)),
                }
            },
            (ConnectionState::ReadingRequest, ConnectionEvent::ReadFailed(io)) => {
                (ConnectionState::Closed, ConnectionAction::Fail(Error::Io(io)))
            },
            (ConnectionState::AwaitingHandler, ConnectionEvent::Handled(Ok(resp))) => {
                let f = String::from_str(resp.filename());
                (ConnectionState::ReadingBody(resp), ConnectionAction::ReadBody(f))
            },
            (ConnectionState::AwaitingHandler, ConnectionEvent::Handled(Err(_))) => {
                let resp = HttpResponse::internal_server_error("500.html");
                let f = String::from_str(resp.filename());
                (ConnectionState::ReadingBody(resp), ConnectionAction::ReadBody(f))
            },
            (ConnectionState::ReadingBody(resp), ConnectionEvent::BodyRead(contents)) => {
                let bytes = render_http_response(&resp, contents.as_str());
                (ConnectionState::Writing, ConnectionAction::Write(bytes))
            },
            (ConnectionState::ReadingBody(_), ConnectionEvent::BodyFailed(io)) => {
                (ConnectionState::Closed, ConnectionAction::Fail(Error::Io(io)))
            },
            (ConnectionState::Writing, ConnectionEvent::Written) => {
                (ConnectionState::Closed, ConnectionAction::Close)
            },
            (ConnectionState::Writing, ConnectionEvent::WriteFailed(io)) => {
                (ConnectionState::Closed, ConnectionAction::Fail(Error::Io(io)))
            },
            _ => (ConnectionState::Closed, ConnectionAction::Close),
        }
    }
}

/// Whatever error the route handler returns, the connection still goes on to
/// write a complete response: the status line
/// `HTTP/1.1 500 INTERNAL SERVER ERROR`, a `Content-Length` equal to the byte
/// length of the fallback body, an empty line, and that body.
pub proof fn lemma_handler_failure_still_answers(
    err: Error,
    s1: ConnectionState,
    a1: ConnectionAction,
    contents: String,
    s2: ConnectionState,
    a2: ConnectionAction,
)
    requires
        transition(ConnectionState::AwaitingHandler, ConnectionEvent::Handled(Err(err)), s1, a1),
        transition(s1, ConnectionEvent::BodyRead(contents), s2, a2),
    ensures
        a1 matches ConnectionAction::ReadBody(f) && f@ == fallback_body_source(),
        a2 matches ConnectionAction::Write(bytes) && bytes@ == ascii_bytes(
            "HTTP/1.1 500 INTERNAL SERVER ERROR\r\nContent-Length: "@,
        ) + decimal(encode_utf8(contents@).len()) + ascii_bytes("\r\n\r\n"@) + encode_utf8(
            contents@,
        ),
{
    reveal_strlit("HTTP/1.1");
    reveal_strlit(" ");
    reveal_strlit("500 INTERNAL SERVER ERROR");
    reveal_strlit("\r\nContent-Length: ");
    reveal_strlit("HTTP/1.1 500 INTERNAL SERVER ERROR\r\nContent-Length: ");
    let resp = s1->ReadingBody_0;
    assert(resp@.0.line() =~= "HTTP/1.1 500 INTERNAL SERVER ERROR"@) by {
        reveal_strlit("HTTP/1.1 500 INTERNAL SERVER ERROR");
    }
    assert(ascii_bytes(resp@.0.line()) + ascii_bytes("\r\nContent-Length: "@) =~= ascii_bytes(
        "HTTP/1.1 500 INTERNAL SERVER ERROR\r\nContent-Length: "@,
    ));
}

} // verus!
