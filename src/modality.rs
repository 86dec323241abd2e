use vstd::prelude::*;
use crate::diagnostic::{reply_diagnostic, reply_error, reports, Diagnostic, ErrorKind, Reply};
use crate::request::{path_of_one, path_of_three, path_of_two, Body, Method, Request};
use crate::text::{decimal, decimal_of, decimal_value, json_string, json_string_of, parse_capped};

verus! {

/// The TCP port that a text names: a decimal integer in 1..=65535.
pub open spec fn port_of(s: Seq<char>) -> Option<int> {
    match decimal_value(s) {
        Some(v) => if 1 <= v && v <= 65535 {
            Some(v)
        } else {
            None
        },
        None => None,
    }
}

fn invalid_port(text: &str) -> (r: Diagnostic)
    ensures
        r.kind == ErrorKind::Validation,
        r.detail matches Some(t) && t@ == text@,
{
    Diagnostic::new(
        ErrorKind::Validation,
        Some(String::from_str("The port must be an integer from 1 to 65535")),
        Some(String::from_str(text)),
    )
}

/// Reads a port given on the command line, before anything is sent.
pub fn parse_port(text: &str) -> (r: Result<u16, Diagnostic>)
    ensures
        r is Ok <==> port_of(text@) is Some,
        r is Ok ==> r->Ok_0 as int == port_of(text@)->Some_0,
        r is Err ==> r->Err_0.kind == ErrorKind::Validation,
        r is Err ==> (r->Err_0.detail matches Some(t) && t@ == text@),
{
    match parse_capped(text, 65536) {
        Some(v) => if 1 <= v && v <= 65535 {
            Ok(v as u16)
        } else {
            Err(invalid_port(text))
        },
        None => Err(invalid_port(text)),
    }
}

/// A modality that the archive can exchange data with, under a unique name.
#[derive(Clone, Debug, PartialEq, Eq)]
pub struct ModalityRecord {
    pub name: String,
    pub aet: String,
    pub host: String,
    pub port: u16,
}

impl ModalityRecord {
    /// A modality's record is well formed when its port is in the TCP range.
    pub open spec fn wf(&self) -> bool {
        1 <= self.port
    }

    /// Builds a record from the values given on the command line; a port
    /// that is not an integer in 1..=65535 is refused before anything is sent.
    pub fn new(name: &str, aet: &str, host: &str, port: &str) -> (r: Result<ModalityRecord, Diagnostic>)
        ensures
            r is Ok <==> port_of(port@) is Some,
            r is Err ==> r->Err_0.kind == ErrorKind::Validation,
            r is Ok ==> r->Ok_0.wf() && r->Ok_0.name@ == name@ && r->Ok_0.aet@ == aet@
                && r->Ok_0.host@ == host@ && r->Ok_0.port as int == port_of(port@)->Some_0,
    {
        let p = parse_port(port)?;
        Ok(
            ModalityRecord {
                name: String::from_str(name),
                aet: String::from_str(aet),
                host: String::from_str(host),
                port: p,
            },
        )
    }

    /// The request that registers this modality, or replaces its registration.
    pub fn register_request(&self) -> (r: Request)
        ensures
            r.method == Method::Put,
            r.path_view() == seq!["modalities"@, self.name@],
            r.body matches Body::Text(t) && t@ == modality_json(self.aet@, self.host@, self.port as nat),
    {
        let body = modality_body(self.aet.as_str(), self.host.as_str(), self.port);
        Request { method: Method::Put, path: path_of_two("modalities", self.name.as_str()), body: Body::Text(body) }
    }
}

/// The JSON object by which the archive registers a modality.
pub open spec fn modality_json(aet: Seq<char>, host: Seq<char>, port: nat) -> Seq<char> {
    "{\"AET\":"@ + json_string(aet) + ",\"Host\":"@ + json_string(host) + ",\"Port\":"@ + decimal_of(
        port,
    ) + "}"@
}

pub fn modality_body(aet: &str, host: &str, port: u16) -> (r: String)
    ensures
        r@ == modality_json(aet@, host@, port as nat),
{
    let a = json_string_of(aet);
    let h = json_string_of(host);
    let p = decimal(port as u32);
    let r = String::from_str("{\"AET\":").concat(a.as_str()).concat(",\"Host\":").concat(
        h.as_str(),
    ).concat(",\"Port\":").concat(p.as_str()).concat("}");
    r
}

/// The request that lists the registered modalities.
pub fn modality_list_request() -> (r: Request)
    ensures
        r.method == Method::Get,
        r.body == Body::Empty,
        r.path_view() == seq!["modalities"@],
{
    Request { method: Method::Get, path: path_of_one("modalities"), body: Body::Empty }
}

/// The request that fetches one modality's configuration.
pub fn modality_show_request(name: &str) -> (r: Request)
    ensures
        r.method == Method::Get,
        r.body == Body::Empty,
        r.path_view() == seq!["modalities"@, name@, "configuration"@],
{
    Request { method: Method::Get, path: path_of_three("modalities", name, "configuration"), body: Body::Empty }
}

/// The request that removes a modality's registration.
pub fn modality_delete_request(name: &str) -> (r: Request)
    ensures
        r.method == Method::Delete,
        r.body == Body::Empty,
        r.path_view() == seq!["modalities"@, name@],
{
    Request { method: Method::Delete, path: path_of_two("modalities", name), body: Body::Empty }
}

/// The request of one connectivity probe; a failed probe is the answer
/// itself and is never retried.
pub fn echo_request(name: &str) -> (r: Request)
    ensures
        r.method == Method::Post,
        r.path_view() == seq!["modalities"@, name@, "echo"@],
        r.body matches Body::Text(t) && t@ == "{}"@,
{
    Request { method: Method::Post, path: path_of_three("modalities", name, "echo"), body: Body::Text(String::from_str("{}")) }
}

/// The request that pushes one resource to a modality.
pub fn store_request(modality: &str, id: &str) -> (r: Request)
    ensures
        r.method == Method::Post,
        r.path_view() == seq!["modalities"@, modality@, "store"@],
        r.body matches Body::Text(t) && t@ == id@,
{
    Request { method: Method::Post, path: path_of_three("modalities", modality, "store"), body: Body::Text(String::from_str(id)) }
}

/// The outcome of pushing one resource: its id, and the diagnostic of its
/// failure, if it failed.
#[derive(Clone, Debug, PartialEq, Eq)]
pub struct StoreResult {
    pub id: String,
    pub error: Option<Diagnostic>,
}

impl StoreResult {
    pub fn succeeded(&self) -> (r: bool)
        ensures
            r == self.error is None,
    {
        self.error.is_none()
    }
}

/// The rows of a store, one per requested id in the order of the request,
/// and whether every push succeeded.
#[derive(Clone, Debug, PartialEq, Eq)]
pub struct StoreReport {
    pub rows: Vec<StoreResult>,
    pub succeeded: bool,
}

/// Row `i` of a store reports the push of `ids[i]` from its reply.
pub open spec fn row_reports(row: StoreResult, id: String, reply: Reply) -> bool {
    &&& row.id@ == id@
    &&& (row.error is None <==> reply_error(reply) is None)
    &&& (row.error matches Some(d) ==> reports(reply, d))
}

/// Assembles the report of a store from the replies to its pushes, given in
/// the order of the ids. Each push stands on its own: a failed one neither
/// stops nor hides the others, and the whole store fails if any push failed.
pub fn store_report(ids: &Vec<String>, replies: &Vec<Reply>) -> (r: StoreReport)
    requires
        ids.len() == replies.len(),
    ensures
        r.rows.len() == ids.len(),
        forall|i: int| 0 <= i < ids.len() ==> row_reports(#[trigger] r.rows[i], ids[i], replies[i]),
        r.succeeded <==> forall|i: int| 0 <= i < ids.len() ==> reply_error(#[trigger] replies[i]) is None,
{
    let mut rows: Vec<StoreResult> = Vec::new();
    let mut all_ok = true;
    let mut i: usize = 0;
    while i < ids.len()
        invariant
            i <= ids.len(),
            ids.len() == replies.len(),
            rows.len() == i,
            forall|j: int| 0 <= j < i ==> row_reports(#[trigger] rows[j], ids[j], replies[j]),
            all_ok <==> forall|j: int| 0 <= j < i ==> reply_error(#[trigger] replies[j]) is None,
        decreases ids.len() - i,
    {
        let error = reply_diagnostic(&replies[i]);
        if error.is_some() {
            all_ok = false;
        }
        rows.push(StoreResult { id: ids[i].clone(), error });
        i = i + 1;
    }
    StoreReport { rows, succeeded: all_ok }
}

} // verus!
