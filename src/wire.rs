//! What the port source and the port sink answer, and what each answer means.

use vstd::prelude::*;
use crate::decimal::{decimal_of, parse_trimmed_decimal, trim};
use crate::json::{json_uint_field, json_uint_field_of};

verus! {

/// The largest port number.
pub const PORT_MAX: u64 = 65535;

/// Every way in which a pass, or the configuration before it, can fail.
#[derive(Clone, Copy, Debug, PartialEq, Eq, Structural)]
pub enum SyncError {
    SourceUnreachable,
    SourceMalformed,
    SourceUnauthorized,
    InvalidCredentials,
    AccountLocked,
    SinkUnreachable,
    SinkUnauthorized,
    SinkFieldMissing,
    SinkWriteFailed,
    ConfigurationInvalid,
}

/// The name of an error kind, as it appears in a log line.
pub open spec fn kind_name(e: SyncError) -> &'static str {
    match e {
        SyncError::SourceUnreachable => "SourceUnreachable",
        SyncError::SourceMalformed => "SourceMalformed",
        SyncError::SourceUnauthorized => "SourceUnauthorized",
        SyncError::InvalidCredentials => "InvalidCredentials",
        SyncError::AccountLocked => "AccountLocked",
        SyncError::SinkUnreachable => "SinkUnreachable",
        SyncError::SinkUnauthorized => "SinkUnauthorized",
        SyncError::SinkFieldMissing => "SinkFieldMissing",
        SyncError::SinkWriteFailed => "SinkWriteFailed",
        SyncError::ConfigurationInvalid => "ConfigurationInvalid",
    }
}

impl SyncError {
    /// A stable name for the error kind, fit for a log line.
    pub fn name(&self) -> (r: &'static str)
        ensures
            r@ == kind_name(*self)@,
    {
        match self {
            SyncError::SourceUnreachable => "SourceUnreachable",
            SyncError::SourceMalformed => "SourceMalformed",
            SyncError::SourceUnauthorized => "SourceUnauthorized",
            SyncError::InvalidCredentials => "InvalidCredentials",
            SyncError::AccountLocked => "AccountLocked",
            SyncError::SinkUnreachable => "SinkUnreachable",
            SyncError::SinkUnauthorized => "SinkUnauthorized",
            SyncError::SinkFieldMissing => "SinkFieldMissing",
            SyncError::SinkWriteFailed => "SinkWriteFailed",
            SyncError::ConfigurationInvalid => "ConfigurationInvalid",
        }
    }
}

/// The answer to one HTTP request: a status and a body, or no answer at all
/// (connection refused, timed out, broken off).
#[derive(Debug)]
pub enum Reply {
    Answered { status: u16, body: Vec<u8> },
    Unreachable,
}

pub open spec fn is_success(status: u16) -> bool {
    200 <= status <= 299
}

pub open spec fn is_rejection(status: u16) -> bool {
    status == 401 || status == 403
}

/// The port that a source body gives: the JSON field `port` when there is
/// one (`json_port`), otherwise the whole body read as digits between
/// optional whitespace. A number above the port range is malformed.
pub open spec fn source_port_of(json_port: Option<u64>, body: Seq<u8>) -> Result<u16, SyncError> {
    match json_port {
        Some(n) => if n <= PORT_MAX {
            Ok(n as u16)
        } else {
            Err(SyncError::SourceMalformed)
        },
        None => match decimal_of(trim(body), PORT_MAX) {
            Some(n) => Ok(n as u16),
            None => Err(SyncError::SourceMalformed),
        },
    }
}

/// What a reply of the port source means.
pub open spec fn source_outcome(reply: Reply) -> Result<u16, SyncError> {
    match reply {
        Reply::Unreachable => Err(SyncError::SourceUnreachable),
        Reply::Answered { status, body } => if is_rejection(status) {
            Err(SyncError::SourceUnauthorized)
        } else if !is_success(status) {
            Err(SyncError::SourceUnreachable)
        } else {
            source_port_of(json_uint_field(body@, "port"@), body@)
        },
    }
}

/// The bytes `Ok.` with which the sink confirms a login.
pub open spec fn login_marker() -> Seq<u8> {
    seq![79u8, 107u8, 46u8]
}

/// What a reply of the sink's login endpoint means.
pub open spec fn login_outcome(reply: Reply) -> Result<(), SyncError> {
    match reply {
        Reply::Unreachable => Err(SyncError::SinkUnreachable),
        Reply::Answered { status, body } => if status == 403 {
            Err(SyncError::AccountLocked)
        } else if is_success(status) && body@ == login_marker() {
            Ok(())
        } else {
            Err(SyncError::InvalidCredentials)
        },
    }
}

/// The listening port that a preferences document gives through its field
/// `listen_port` (`json_port`).
pub open spec fn sink_port_of(json_port: Option<u64>) -> Result<u16, SyncError> {
    match json_port {
        Some(n) => if n <= PORT_MAX {
            Ok(n as u16)
        } else {
            Err(SyncError::SinkFieldMissing)
        },
        None => Err(SyncError::SinkFieldMissing),
    }
}

/// What a reply of the sink's preferences endpoint means.
pub open spec fn preferences_outcome(reply: Reply) -> Result<u16, SyncError> {
    match reply {
        Reply::Unreachable => Err(SyncError::SinkUnreachable),
        Reply::Answered { status, body } => if is_rejection(status) {
            Err(SyncError::SinkUnauthorized)
        } else if !is_success(status) {
            Err(SyncError::SinkUnreachable)
        } else {
            sink_port_of(json_uint_field(body@, "listen_port"@))
        },
    }
}

/// What a reply of the sink's endpoint for writing preferences means: any
/// failure, an answer that never came included, is a failed write.
pub open spec fn write_outcome(reply: Reply) -> Result<(), SyncError> {
    match reply {
        Reply::Unreachable => Err(SyncError::SinkWriteFailed),
        Reply::Answered { status, .. } => if is_success(status) {
            Ok(())
        } else {
            Err(SyncError::SinkWriteFailed)
        },
    }
}

/// The port in a source body, given what its JSON field `port` holds.
pub fn source_port_from(json_port: Option<u64>, body: &[u8]) -> (r: Result<u16, SyncError>)
    ensures
        r == source_port_of(json_port, body@),
{
    match json_port {
        Some(n) => if n <= PORT_MAX {
            Ok(n as u16)
        } else {
            Err(SyncError::SourceMalformed)
        },
        None => match parse_trimmed_decimal(body, PORT_MAX) {
            Some(n) => Ok(n as u16),
            None => Err(SyncError::SourceMalformed),
        },
    }
}

/// The port in a source body, as a JSON object with a field `port` or as
/// plain digits.
pub fn parse_source_body(body: &[u8]) -> (r: Result<u16, SyncError>)
    ensures
        r == source_port_of(json_uint_field(body@, "port"@), body@),
{
    let json_port = json_uint_field_of(body, "port");
    source_port_from(json_port, body)
}

/// Decodes a reply of the port source.
pub fn interpret_source_reply(reply: &Reply) -> (r: Result<u16, SyncError>)
    ensures
        r == source_outcome(*reply),
{
    match reply {
        Reply::Unreachable => Err(SyncError::SourceUnreachable),
        Reply::Answered { status, body } => if *status == 401 || *status == 403 {
            Err(SyncError::SourceUnauthorized)
        } else if *status < 200 || *status > 299 {
            Err(SyncError::SourceUnreachable)
        } else {
            parse_source_body(body.as_slice())
        },
    }
}

/// Decodes a reply of the sink's login endpoint.
pub fn interpret_login_reply(reply: &Reply) -> (r: Result<(), SyncError>)
    ensures
        r == login_outcome(*reply),
{
    match reply {
        Reply::Unreachable => Err(SyncError::SinkUnreachable),
        Reply::Answered { status, body } => {
            if *status == 403 {
                Err(SyncError::AccountLocked)
            } else if *status >= 200 && *status <= 299 && body.len() == 3 && body[0] == 79
                && body[1] == 107 && body[2] == 46 {
                assert(body@ =~= login_marker());
                Ok(())
            } else {
                Err(SyncError::InvalidCredentials)
            }
        },
    }
}

/// The listening port in a preferences document, given what its JSON field
/// `listen_port` holds.
pub fn sink_port_from(json_port: Option<u64>) -> (r: Result<u16, SyncError>)
    ensures
        r == sink_port_of(json_port),
{
    match json_port {
        Some(n) => if n <= PORT_MAX {
            Ok(n as u16)
        } else {
            Err(SyncError::SinkFieldMissing)
        },
        None => Err(SyncError::SinkFieldMissing),
    }
}

/// Decodes a reply of the sink's preferences endpoint.
pub fn interpret_preferences_reply(reply: &Reply) -> (r: Result<u16, SyncError>)
    ensures
        r == preferences_outcome(*reply),
{
    match reply {
        Reply::Unreachable => Err(SyncError::SinkUnreachable),
        Reply::Answered { status, body } => if *status == 401 || *status == 403 {
            Err(SyncError::SinkUnauthorized)
        } else if *status < 200 || *status > 299 {
            Err(SyncError::SinkUnreachable)
        } else {
            sink_port_from(json_uint_field_of(body.as_slice(), "listen_port"))
        },
    }
}

/// Decodes a reply of the sink's endpoint for writing preferences.
pub fn interpret_write_reply(reply: &Reply) -> (r: Result<(), SyncError>)
    ensures
        r == write_outcome(*reply),
{
    match reply {
        Reply::Unreachable => Err(SyncError::SinkWriteFailed),
        Reply::Answered { status, .. } => if *status >= 200 && *status <= 299 {
            Ok(())
        } else {
            Err(SyncError::SinkWriteFailed)
        },
    }
}

/// The decimal digits of `n`, without leading zeros.
pub open spec fn decimal_text(n: nat) -> Seq<u8>
    decreases n,
{
    if n < 10 {
        seq![(48 + n) as u8]
    } else {
        decimal_text(n / 10) + seq![(48 + n % 10) as u8]
    }
}

/// The bytes `{"listen_port":` that open the preferences written to the sink.
pub open spec fn payload_head() -> Seq<u8> {
    seq![123u8, 34u8, 108u8, 105u8, 115u8, 116u8, 101u8, 110u8, 95u8, 112u8, 111u8, 114u8, 116u8, 34u8, 58u8]
}

/// The JSON object `{"listen_port":<port>}` that sets the sink's listening
/// port.
pub open spec fn listen_port_payload_of(port: u16) -> Seq<u8> {
    payload_head() + decimal_text(port as nat) + seq![125u8]
}

fn push_decimal(n: u64, out: &mut Vec<u8>)
    ensures
        final(out)@ == old(out)@ + decimal_text(n as nat),
    decreases n,
{
    if n >= 10 {
        push_decimal(n / 10, out);
    }
    out.push((48 + n % 10) as u8);
    assert(out@ =~= old(out)@ + decimal_text(n as nat));
}

/// The value of the form field `json` that sets the sink's listening port.
pub fn listen_port_payload(port: u16) -> (r: Vec<u8>)
    ensures
        r@ == listen_port_payload_of(port),
{
    let mut out: Vec<u8> = vec![123u8, 34u8, 108u8, 105u8, 115u8, 116u8, 101u8, 110u8, 95u8, 112u8, 111u8, 114u8, 116u8, 34u8, 58u8];
    assert(out@ =~= payload_head());
    push_decimal(port as u64, &mut out);
    out.push(125u8);
    assert(out@ =~= listen_port_payload_of(port));
    out
}

} // verus!
