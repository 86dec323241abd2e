use vstd::prelude::*;
use crate::connection::resolved;
use crate::diagnostic::{reply_error, ErrorKind, Reply};
use crate::modality::port_of;
use crate::text::{is_digit, sign_len};
use crate::transform::{config_refused, ConfigInput, TransformOp};

verus! {

/// Whatever the kind and the id, a lookup that the archive answers with
/// "not found" ends in a not-found diagnostic, never in a record.
pub proof fn unknown_id_is_not_found(body: Vec<u8>)
    ensures
        reply_error(Reply::Answered { status: 404, body }) == Some(ErrorKind::NotFound),
{
}

/// A modify without a configuration is refused before any request is
/// built, while an anonymize without one goes ahead.
pub proof fn modify_without_config_is_refused()
    ensures
        config_refused(TransformOp::Modify, ConfigInput::Absent),
        !config_refused(TransformOp::Anonymize, ConfigInput::Absent),
{
}

/// A value given explicitly is the one used, whatever the fallback holds.
pub proof fn explicit_value_wins(explicit: Seq<char>, fallback: Option<Seq<char>>)
    ensures
        resolved(Some(explicit), fallback) == Some(explicit),
{
}

/// A port text holding a character that is not a digit (other than a
/// leading `+`) names no port, so the modality is refused before any request.
pub proof fn non_numeric_port_is_refused(s: Seq<char>, i: int)
    requires
        0 <= i < s.len(),
        !is_digit(s[i]),
        !(i == 0 && s[i] == '+'),
    ensures
        port_of(s) is None,
{
    let d = s.subrange(sign_len(s), s.len() as int);
    assert(i >= sign_len(s));
    assert(d[i - sign_len(s)] == s[i]);
}

} // verus!
