use vstd::prelude::*;
use crate::diagnostic::{Diagnostic, ErrorKind};

verus! {

/// A value given explicitly wins over its fallback, whatever the fallback holds.
pub open spec fn resolved(explicit: Option<Seq<char>>, fallback: Option<Seq<char>>) -> Option<Seq<char>> {
    match explicit {
        Some(v) => Some(v),
        None => fallback,
    }
}

/// The text of an optional value given on the command line.
pub open spec fn given(o: Option<&str>) -> Option<Seq<char>> {
    match o {
        Some(s) => Some(s@),
        None => None,
    }
}

/// The text of an optional owned value.
pub open spec fn found(o: Option<String>) -> Option<Seq<char>> {
    match o {
        Some(s) => Some(s@),
        None => None,
    }
}

/// The archive's address: the one given on the command line, else the one
/// found in the fallback source (`Err` holds why it was not found there).
pub fn get_server_address(cmd_option: Option<&str>, fallback: Result<String, String>) -> (r: Result<
    String,
    Diagnostic,
>)
    ensures
        cmd_option is Some ==> (r matches Ok(a) && a@ == cmd_option->Some_0@),
        cmd_option is None && fallback is Ok ==> r == Ok::<String, Diagnostic>(fallback->Ok_0),
        cmd_option is None && fallback is Err ==> (r matches Err(d) && d.kind == ErrorKind::Command
            && d.detail == Some(fallback->Err_0) && (d.reason matches Some(t) && t@
            == "Neither --server-address nor ORC_ORTHANC_ADDRESS are set"@)),
{
    match cmd_option {
        Some(s) => Ok(String::from_str(s)),
        None => match fallback {
            Ok(s) => Ok(s),
            Err(e) => Err(
                Diagnostic::new(
                    ErrorKind::Command,
                    Some(String::from_str("Neither --server-address nor ORC_ORTHANC_ADDRESS are set")),
                    Some(e),
                ),
            ),
        },
    }
}

fn explicit_or(cmd_option: Option<&str>, fallback: Option<String>) -> (r: Option<String>)
    ensures
        found(r) == resolved(given(cmd_option), found(fallback)),
{
    match cmd_option {
        Some(s) => Some(String::from_str(s)),
        None => fallback,
    }
}

/// The user name: the one given on the command line, else the fallback's.
pub fn get_username(cmd_option: Option<&str>, fallback: Option<String>) -> (r: Option<String>)
    ensures
        found(r) == resolved(given(cmd_option), found(fallback)),
{
    explicit_or(cmd_option, fallback)
}

/// The password: the one given on the command line, else the fallback's.
pub fn get_password(cmd_option: Option<&str>, fallback: Option<String>) -> (r: Option<String>)
    ensures
        found(r) == resolved(given(cmd_option), found(fallback)),
{
    explicit_or(cmd_option, fallback)
}

/// The archive's address and the optional credential pair used for one
/// invocation.
#[derive(Clone, Debug, PartialEq, Eq)]
pub struct Connection {
    pub address: String,
    pub credentials: Option<(String, String)>,
}

impl Connection {
    /// A connection from resolved values. A user name without a password,
    /// or the reverse, is refused: credentials go in pairs.
    pub fn new(address: String, username: Option<String>, password: Option<String>) -> (r: Result<
        Connection,
        Diagnostic,
    >)
        ensures
            r is Ok <==> (username is Some <==> password is Some),
            r is Err ==> r->Err_0.kind == ErrorKind::Command,
            r is Ok ==> r->Ok_0.address == address,
            r is Ok && username is None ==> r->Ok_0.credentials is None,
            r is Ok && username is Some ==> r->Ok_0.credentials == Some(
                (username->Some_0, password->Some_0),
            ),
    {
        match (username, password) {
            (Some(u), Some(p)) => Ok(Connection { address, credentials: Some((u, p)) }),
            (None, None) => Ok(Connection { address, credentials: None }),
            _ => Err(
                Diagnostic::new(
                    ErrorKind::Command,
                    Some(String::from_str("A username and a password must be given together")),
                    None,
                ),
            ),
        }
    }
}

} // verus!
