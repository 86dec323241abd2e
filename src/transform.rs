use vstd::prelude::*;
use crate::diagnostic::{settle_reply, reply_error, reports, Diagnostic, ErrorKind, Reply};
use crate::hierarchy::{collection_of, ResourceKind};
use crate::request::{path_of_three, Body, Method, Request};

verus! {

#[derive(Clone, Copy, Debug, PartialEq, Eq, Structural)]
pub enum TransformOp {
    Anonymize,
    Modify,
}

/// The last path segment of each transform.
pub open spec fn op_leaf(op: TransformOp) -> Seq<char> {
    match op {
        TransformOp::Anonymize => "anonymize"@,
        TransformOp::Modify => "modify"@,
    }
}

/// A transform's configuration as the caller found it: no path was given,
/// the file's raw content, or the reason it could not be read.
#[derive(Clone, Debug, PartialEq, Eq)]
pub enum ConfigInput {
    Absent,
    Loaded(Vec<u8>),
    Unreadable(String),
}

/// A transform is refused before any request when its configuration could
/// not be read, or when it is a modify without one.
pub open spec fn config_refused(op: TransformOp, config: ConfigInput) -> bool {
    config is Unreadable || (config is Absent && op == TransformOp::Modify)
}

/// What a transform yields: the record of a new archive resource, or (for
/// an instance) the transformed object's bytes to write to a file.
#[derive(Clone, Debug, PartialEq, Eq)]
pub enum TransformOutput {
    NewResource(Vec<u8>),
    RawPayload(Vec<u8>),
}

/// The request of an anonymize or a modify. The configuration's content is
/// forwarded as it is; an anonymize without one sends an empty JSON object,
/// so that the archive applies its built-in profile.
pub fn transform_request(op: TransformOp, kind: ResourceKind, id: &str, config: ConfigInput) -> (r:
    Result<Request, Diagnostic>)
    ensures
        r is Err <==> config_refused(op, config),
        r is Err ==> r->Err_0.kind == ErrorKind::Configuration,
        r is Err && config is Unreadable ==> r->Err_0.detail == Some(config->Unreadable_0),
        r is Ok ==> r->Ok_0.method == Method::Post,
        r is Ok ==> r->Ok_0.path_view() == seq![collection_of(kind), id@, op_leaf(op)],
        r is Ok && config is Loaded ==> r->Ok_0.body == Body::Bytes(config->Loaded_0),
        r is Ok && config is Absent ==> (r->Ok_0.body matches Body::Text(t) && t@ == "{}"@),
{
    let leaf = match op {
        TransformOp::Anonymize => "anonymize",
        TransformOp::Modify => "modify",
    };
    let body = match config {
        ConfigInput::Unreadable(detail) => {
            return Err(
                Diagnostic::new(
                    ErrorKind::Configuration,
                    Some(String::from_str("The configuration file could not be read")),
                    Some(detail),
                ),
            );
        },
        ConfigInput::Absent => match op {
            TransformOp::Modify => {
                return Err(
                    Diagnostic::new(
                        ErrorKind::Configuration,
                        Some(String::from_str("A modify needs a configuration file")),
                        None,
                    ),
                );
            },
            TransformOp::Anonymize => Body::Text(String::from_str("{}")),
        },
        ConfigInput::Loaded(bytes) => Body::Bytes(bytes),
    };
    Ok(Request { method: Method::Post, path: path_of_three(kind.collection(), id, leaf), body })
}

/// The output of a transform's reply: for an instance, the answer's bytes
/// as a payload; for the other kinds, the answer as the new resource's record.
pub fn finish_transform(kind: ResourceKind, reply: Reply) -> (r: Result<TransformOutput, Diagnostic>)
    ensures
        r is Ok <==> reply_error(reply) is None,
        r is Err ==> reports(reply, r->Err_0),
        r is Ok && kind == ResourceKind::Instance ==> (r->Ok_0 matches TransformOutput::RawPayload(
            b,
        ) && b@ == reply->body@),
        r is Ok && kind != ResourceKind::Instance ==> (r->Ok_0 matches TransformOutput::NewResource(
            b,
        ) && b@ == reply->body@),
{
    match settle_reply(reply) {
        Err(d) => Err(d),
        Ok(body) => match kind {
            ResourceKind::Instance => Ok(TransformOutput::RawPayload(body)),
            _ => Ok(TransformOutput::NewResource(body)),
        },
    }
}

} // verus!
