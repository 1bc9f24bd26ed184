//! The messages that clients and the daemon exchange over the socket.
use vstd::prelude::*;

verus! {

/// A request from a client, one per line on the socket.
#[derive(Debug)]
pub enum Request {
    Ping,
    PkgAdd { name: String },
    PkgRemove { name: String },
    PkgList,
    PkgPresent { name: String },
    Status,
}

/// The data that a successful response carries.
#[derive(Debug)]
pub enum Payload {
    /// The answer to a ping.
    Pong,
    /// The daemon's version and whether the package manifest exists.
    Status { version: String, manifest_present: bool },
    /// Whether a package is in the manifest.
    Present(bool),
    /// The package manifest, as the JSON text it was read from.
    Manifest(Vec<u8>),
}

pub enum PayloadView {
    Pong,
    Status { version: Seq<char>, manifest_present: bool },
    Present(bool),
    Manifest(Seq<u8>),
}

impl View for Payload {
    type V = PayloadView;

    open spec fn view(&self) -> PayloadView {
        match self {
            Payload::Pong => PayloadView::Pong,
            Payload::Status { version, manifest_present } => PayloadView::Status {
                version: version@,
                manifest_present: *manifest_present,
            },
            Payload::Present(found) => PayloadView::Present(*found),
            Payload::Manifest(bytes) => PayloadView::Manifest(bytes@),
        }
    }
}

/// The final answer to a request.
#[derive(Debug)]
pub struct Response {
    pub ok: bool,
    pub data: Option<Payload>,
    pub error: Option<String>,
}

pub struct ResponseView {
    pub ok: bool,
    pub data: Option<PayloadView>,
    pub error: Option<Seq<char>>,
}

impl View for Response {
    type V = ResponseView;

    open spec fn view(&self) -> ResponseView {
        ResponseView {
            ok: self.ok,
            data: match self.data {
                Some(d) => Some(d@),
                None => None,
            },
            error: match self.error {
                Some(e) => Some(e@),
                None => None,
            },
        }
    }
}

/// A successful answer carrying `data`.
pub open spec fn success(data: Option<PayloadView>) -> ResponseView {
    ResponseView { ok: true, data, error: None }
}

/// A failed answer explaining itself with `msg`.
pub open spec fn failure(msg: Seq<char>) -> ResponseView {
    ResponseView { ok: false, data: None, error: Some(msg) }
}

impl Response {
    /// A successful response, with or without data.
    pub fn ok(data: Option<Payload>) -> (res: Response)
        ensures
            res@ == success(match data {
                Some(d) => Some(d@),
                None => None,
            }),
    {
        Response { ok: true, data, error: None }
    }

    /// A failed response with the message `msg`.
    pub fn err(msg: String) -> (res: Response)
        ensures
            res@ == failure(msg@),
    {
        Response { ok: false, data: None, error: Some(msg) }
    }
}

/// Newline-delimited frames written to the socket for long-running operations.
/// The connection stays open until a `Done` frame is sent.
#[derive(Debug)]
pub enum Frame {
    /// One line of output from nixos-rebuild's stderr.
    Progress { line: String },
    /// Final result: the client checks `ok` and exits accordingly.
    Done(Response),
}

} // verus!
