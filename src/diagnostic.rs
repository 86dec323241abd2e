use vstd::prelude::*;

verus! {

/// The category of a failure surfaced by the core.
#[derive(Clone, Copy, Debug, PartialEq, Eq, Structural)]
pub enum ErrorKind {
    Configuration,
    Validation,
    Network,
    Auth,
    NotFound,
    Server,
    Io,
    Command,
}

/// The short title shown for each category.
pub open spec fn title_of(kind: ErrorKind) -> Seq<char> {
    match kind {
        ErrorKind::Configuration => "Configuration error"@,
        ErrorKind::Validation => "Validation error"@,
        ErrorKind::Network => "Network error"@,
        ErrorKind::Auth => "Authentication error"@,
        ErrorKind::NotFound => "Not found"@,
        ErrorKind::Server => "Server error"@,
        ErrorKind::Io => "I/O error"@,
        ErrorKind::Command => "Command error"@,
    }
}

/// A failure: its category, an optional human reason and an optional raw detail.
#[derive(Clone, Debug, PartialEq, Eq)]
pub struct Diagnostic {
    pub kind: ErrorKind,
    pub reason: Option<String>,
    pub detail: Option<String>,
}

impl Diagnostic {
    pub fn new(kind: ErrorKind, reason: Option<String>, detail: Option<String>) -> (r: Diagnostic)
        ensures
            r.kind == kind,
            r.reason == reason,
            r.detail == detail,
    {
        Diagnostic { kind, reason, detail }
    }

    pub fn title(&self) -> (r: String)
        ensures
            r@ == title_of(self.kind),
    {
        match self.kind {
            ErrorKind::Configuration => String::from_str("Configuration error"),
            ErrorKind::Validation => String::from_str("Validation error"),
            ErrorKind::Network => String::from_str("Network error"),
            ErrorKind::Auth => String::from_str("Authentication error"),
            ErrorKind::NotFound => String::from_str("Not found"),
            ErrorKind::Server => String::from_str("Server error"),
            ErrorKind::Io => String::from_str("I/O error"),
            ErrorKind::Command => String::from_str("Command error"),
        }
    }
}

/// The diagnostic of a local file that could not be read or written; the
/// system's own message is kept as detail.
pub fn io_failure(detail: String) -> (r: Diagnostic)
    ensures
        r.kind == ErrorKind::Io,
        r.detail == Some(detail),
        r.reason matches Some(t) && t@ == "A local file could not be read or written"@,
{
    Diagnostic::new(ErrorKind::Io, Some(String::from_str("A local file could not be read or written")), Some(detail))
}

/// What came back from one request: an answer with a status and a body, or
/// no answer at all (connection refused, timeout, TLS failure).
#[derive(Clone, Debug, PartialEq, Eq)]
pub enum Reply {
    Answered { status: u16, body: Vec<u8> },
    Unreachable { detail: String },
}

/// The failure category of an answer's status, none for a 2xx status.
pub open spec fn status_kind(status: u16) -> Option<ErrorKind> {
    if 200 <= status && status < 300 {
        None
    } else if status == 401 || status == 403 {
        Some(ErrorKind::Auth)
    } else if status == 404 {
        Some(ErrorKind::NotFound)
    } else {
        Some(ErrorKind::Server)
    }
}

/// The failure category of a reply, none when it is a success.
pub open spec fn reply_error(reply: Reply) -> Option<ErrorKind> {
    match reply {
        Reply::Answered { status, .. } => status_kind(status),
        Reply::Unreachable { .. } => Some(ErrorKind::Network),
    }
}

/// The text of a body whose bytes are read as UTF-8, invalid sequences replaced.
pub uninterp spec fn lossy_text(bytes: Seq<u8>) -> Seq<char>;

/// Relies on `String::from_utf8_lossy`: its result depends on the bytes alone.
#[verifier::external_body]
fn body_text(body: &Vec<u8>) -> (r: String)
    ensures
        r@ == lossy_text(body@),
{
    String::from_utf8_lossy(body.as_slice()).into_owned()
}

pub fn classify_status(status: u16) -> (r: Option<ErrorKind>)
    ensures
        r == status_kind(status),
{
    if 200 <= status && status < 300 {
        None
    } else if status == 401 || status == 403 {
        Some(ErrorKind::Auth)
    } else if status == 404 {
        Some(ErrorKind::NotFound)
    } else {
        Some(ErrorKind::Server)
    }
}

/// The fixed human reason given for each failure that a reply can bring.
pub open spec fn reason_of(kind: ErrorKind) -> Seq<char> {
    match kind {
        ErrorKind::Network => "The archive could not be reached"@,
        ErrorKind::Auth => "The archive rejected the credentials"@,
        ErrorKind::NotFound => "The archive has no such resource"@,
        _ => "The archive answered with an unexpected status"@,
    }
}

fn reason(kind: ErrorKind) -> (r: String)
    ensures
        r@ == reason_of(kind),
{
    match kind {
        ErrorKind::Network => String::from_str("The archive could not be reached"),
        ErrorKind::Auth => String::from_str("The archive rejected the credentials"),
        ErrorKind::NotFound => String::from_str("The archive has no such resource"),
        _ => String::from_str("The archive answered with an unexpected status"),
    }
}

/// `d` reports the failure that `reply` brings: its category, the fixed
/// reason for that category, and the failure's own text as detail (the
/// transport's message, or the answer's body).
pub open spec fn reports(reply: Reply, d: Diagnostic) -> bool {
    &&& reply_error(reply) == Some(d.kind)
    &&& (d.reason matches Some(t) && t@ == reason_of(d.kind))
    &&& match reply {
        Reply::Unreachable { detail } => d.detail == Some(detail),
        Reply::Answered { body, .. } => d.detail matches Some(t) && t@ == lossy_text(body@),
    }
}

/// The diagnostic of a reply, none when it is a success.
pub fn reply_diagnostic(reply: &Reply) -> (r: Option<Diagnostic>)
    ensures
        r is None <==> reply_error(*reply) is None,
        r is Some ==> reports(*reply, r->Some_0),
{
    match reply {
        Reply::Answered { status, body } => match classify_status(*status) {
            None => None,
            Some(kind) => Some(Diagnostic::new(kind, Some(reason(kind)), Some(body_text(body)))),
        },
        Reply::Unreachable { detail } => Some(
            Diagnostic::new(ErrorKind::Network, Some(reason(ErrorKind::Network)), Some(detail.clone())),
        ),
    }
}

/// Turns a reply into its body on success, or into the diagnostic that
/// reports its failure.
pub fn settle_reply(reply: Reply) -> (r: Result<Vec<u8>, Diagnostic>)
    ensures
        r is Ok <==> reply_error(reply) is None,
        r is Ok ==> reply is Answered && r->Ok_0@ == reply->body@,
        r is Err ==> reports(reply, r->Err_0),
{
    match reply_diagnostic(&reply) {
        Some(d) => Err(d),
        None => match reply {
            Reply::Answered { body, .. } => Ok(body),
            Reply::Unreachable { .. } => Err(
                Diagnostic::new(ErrorKind::Network, Some(reason(ErrorKind::Network)), None),
            ),
        },
    }
}

} // verus!
