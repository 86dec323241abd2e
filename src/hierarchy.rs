use vstd::prelude::*;
use crate::diagnostic::{io_failure, settle_reply, reply_error, reports, Diagnostic, ErrorKind, Reply};
use crate::request::{path_of_one, path_of_three, path_of_two, Body, Method, Request};

verus! {

/// The four nested kinds of archive resources: a patient holds studies, a
/// study holds series, a series holds instances.
#[derive(Clone, Copy, Debug, PartialEq, Eq, Structural)]
pub enum ResourceKind {
    Patient,
    Study,
    Series,
    Instance,
}

/// The path segment under which the archive lists each kind.
pub open spec fn collection_of(kind: ResourceKind) -> Seq<char> {
    match kind {
        ResourceKind::Patient => "patients"@,
        ResourceKind::Study => "studies"@,
        ResourceKind::Series => "series"@,
        ResourceKind::Instance => "instances"@,
    }
}

/// The kind that directly contains each kind; a patient has none.
pub open spec fn parent_of(kind: ResourceKind) -> Option<ResourceKind> {
    match kind {
        ResourceKind::Patient => None,
        ResourceKind::Study => Some(ResourceKind::Patient),
        ResourceKind::Series => Some(ResourceKind::Study),
        ResourceKind::Instance => Some(ResourceKind::Series),
    }
}

/// The last path segment of a download: a ZIP archive for the kinds that
/// hold others, the stored object itself for an instance.
pub open spec fn download_leaf(kind: ResourceKind) -> Seq<char> {
    match kind {
        ResourceKind::Instance => "file"@,
        _ => "archive"@,
    }
}

impl ResourceKind {
    pub fn collection(self) -> (r: &'static str)
        ensures
            r@ == collection_of(self),
    {
        match self {
            ResourceKind::Patient => "patients",
            ResourceKind::Study => "studies",
            ResourceKind::Series => "series",
            ResourceKind::Instance => "instances",
        }
    }

    pub fn parent(self) -> (r: Option<ResourceKind>)
        ensures
            r == parent_of(self),
    {
        match self {
            ResourceKind::Patient => None,
            ResourceKind::Study => Some(ResourceKind::Patient),
            ResourceKind::Series => Some(ResourceKind::Study),
            ResourceKind::Instance => Some(ResourceKind::Series),
        }
    }
}

/// The request that lists resources of a kind: all of them, or only those
/// inside the given parent. A patient has no parent to filter by.
pub fn list_request(kind: ResourceKind, parent_id: Option<&str>) -> (r: Result<Request, Diagnostic>)
    ensures
        r is Err <==> parent_id is Some && parent_of(kind) is None,
        r is Err ==> r->Err_0.kind == ErrorKind::Validation,
        r is Ok ==> r->Ok_0.method == Method::Get && r->Ok_0.body == Body::Empty,
        r is Ok && parent_id is None ==> r->Ok_0.path_view() == seq![collection_of(kind)],
        r is Ok && parent_id is Some ==> r->Ok_0.path_view() == seq![
            collection_of(parent_of(kind)->Some_0),
            parent_id->Some_0@,
            collection_of(kind),
        ],
{
    match parent_id {
        None => Ok(Request { method: Method::Get, path: path_of_one(kind.collection()), body: Body::Empty }),
        Some(id) => match kind.parent() {
            None => Err(
                Diagnostic::new(
                    ErrorKind::Validation,
                    Some(String::from_str("Patients are not contained in any other resource")),
                    None,
                ),
            ),
            Some(p) => Ok(
                Request {
                    method: Method::Get,
                    path: path_of_three(p.collection(), id, kind.collection()),
                    body: Body::Empty,
                },
            ),
        },
    }
}

/// The request that fetches one resource's full record.
pub fn show_request(kind: ResourceKind, id: &str) -> (r: Request)
    ensures
        r.method == Method::Get,
        r.body == Body::Empty,
        r.path_view() == seq![collection_of(kind), id@],
{
    Request { method: Method::Get, path: path_of_two(kind.collection(), id), body: Body::Empty }
}

/// The request that removes one resource.
pub fn delete_request(kind: ResourceKind, id: &str) -> (r: Request)
    ensures
        r.method == Method::Delete,
        r.body == Body::Empty,
        r.path_view() == seq![collection_of(kind), id@],
{
    Request { method: Method::Delete, path: path_of_two(kind.collection(), id), body: Body::Empty }
}

/// The request that fetches a resource's binary representation. It does not
/// depend on where the bytes will be written.
pub fn download_request(kind: ResourceKind, id: &str) -> (r: Request)
    ensures
        r.method == Method::Get,
        r.body == Body::Empty,
        r.path_view() == seq![collection_of(kind), id@, download_leaf(kind)],
{
    let leaf = match kind {
        ResourceKind::Instance => "file",
        _ => "archive",
    };
    Request { method: Method::Get, path: path_of_three(kind.collection(), id, leaf), body: Body::Empty }
}

/// The request that fetches an instance's tags.
pub fn tags_request(id: &str) -> (r: Request)
    ensures
        r.method == Method::Get,
        r.body == Body::Empty,
        r.path_view() == seq!["instances"@, id@, "tags"@],
{
    Request { method: Method::Get, path: path_of_three("instances", id, "tags"), body: Body::Empty }
}

/// The record of a listing, a show or a tags request: the answer's body, or
/// the reply's failure.
pub fn finish_record(reply: Reply) -> (r: Result<Vec<u8>, Diagnostic>)
    ensures
        r is Ok <==> reply_error(reply) is None,
        r is Ok ==> r->Ok_0@ == reply->body@,
        r is Err ==> reports(reply, r->Err_0),
{
    settle_reply(reply)
}

/// The bytes to write for a download: exactly the answer's body.
pub fn finish_download(reply: Reply) -> (r: Result<Vec<u8>, Diagnostic>)
    ensures
        r is Ok <==> reply_error(reply) is None,
        r is Ok ==> r->Ok_0@ == reply->body@,
        r is Err ==> reports(reply, r->Err_0),
{
    settle_reply(reply)
}

/// The outcome of a request that returns no value (a delete, an echo, a
/// registration).
pub fn finish_unit(reply: Reply) -> (r: Result<(), Diagnostic>)
    ensures
        r is Ok <==> reply_error(reply) is None,
        r is Err ==> reports(reply, r->Err_0),
{
    match settle_reply(reply) {
        Ok(_) => Ok(()),
        Err(d) => Err(d),
    }
}

/// Where a download is written until it is complete; it is renamed to the
/// final path only on success, so no truncated file is ever found there.
pub fn partial_path(output: &str) -> (r: String)
    ensures
        r@ == output@ + ".part"@,
{
    String::from_str(output).concat(".part")
}

/// What happened to the last file operation of a save.
#[derive(Clone, Debug, PartialEq, Eq)]
pub enum SaveEvent {
    Written,
    WriteFailed(String),
    Renamed,
    RenameFailed(String),
}

/// What a save does next: move the complete partial file to its final path,
/// remove the partial file and report the failure, or stop.
#[derive(Clone, Debug, PartialEq, Eq)]
pub enum SaveStep {
    Rename { from: String, to: String },
    Discard { partial: String, error: Diagnostic },
    Finished,
}

/// The next step of saving bytes to `output`, once they were written to its
/// partial path. A failed write or rename never leaves the partial file, and
/// the final path is only ever reached by a rename of a complete file.
pub fn save_step(output: &str, event: SaveEvent) -> (r: SaveStep)
    ensures
        event is Written ==> (r matches SaveStep::Rename { from, to } && from@ == output@
            + ".part"@ && to@ == output@),
        event is WriteFailed ==> (r matches SaveStep::Discard { partial, error } && partial@
            == output@ + ".part"@ && error.kind == ErrorKind::Io && error.detail == Some(
            event->WriteFailed_0,
        )),
        event is RenameFailed ==> (r matches SaveStep::Discard { partial, error } && partial@
            == output@ + ".part"@ && error.kind == ErrorKind::Io && error.detail == Some(
            event->RenameFailed_0,
        )),
        event is Renamed ==> r is Finished,
{
    match event {
        SaveEvent::Written => SaveStep::Rename { from: partial_path(output), to: String::from_str(output) },
        SaveEvent::WriteFailed(detail) => SaveStep::Discard { partial: partial_path(output), error: io_failure(detail) },
        SaveEvent::RenameFailed(detail) => SaveStep::Discard { partial: partial_path(output), error: io_failure(detail) },
        SaveEvent::Renamed => SaveStep::Finished,
    }
}

} // verus!
