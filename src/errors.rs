use vstd::prelude::*;

verus! {

/// Everything that can go wrong in a run, whether or not it ends the run.
#[derive(Clone, Copy, Debug, PartialEq, Eq, Structural)]
pub enum ErrorKind {
    /// The location of the configuration file could not be determined.
    ConfigPath,
    /// The configuration file could not be read or parsed.
    Config,
    /// No public IPv4 address could be determined.
    IPv4,
    /// No public IPv6 address could be determined.
    IPv6,
    /// A call to the provider failed in transport.
    Api,
    /// The provider answered with a status outside the success range.
    NoSuccessHttp,
    /// The provider's response envelope reported `success: false`.
    NoSuccessJson,
    /// A response could not be decoded.
    Json,
    /// A selected record is neither an `A` nor an `AAAA` record.
    NonAddressRecord,
    /// Any other failure, such as a malformed request URL.
    Unknown,
}

/// The conditions that end a run, each with its own process exit code.
#[derive(Clone, Copy, Debug, PartialEq, Eq, Structural)]
pub enum Fatal {
    ConfigPath,
    Config,
    NoAddress,
    BaseUrl,
    ZonesUrl,
    ZonesApi,
    ZonesResponse,
    ZonesDecode,
    RecordsUrl,
    RecordsDecode,
    RecordUrl,
}

pub open spec fn exit_code_of(f: Fatal) -> i32 {
    match f {
        Fatal::ConfigPath => 100,
        Fatal::Config => 101,
        Fatal::NoAddress => 102,
        Fatal::BaseUrl => 103,
        Fatal::ZonesUrl => 104,
        Fatal::ZonesApi => 105,
        Fatal::ZonesResponse => 106,
        Fatal::ZonesDecode => 107,
        Fatal::RecordsUrl => 108,
        Fatal::RecordsDecode => 110,
        Fatal::RecordUrl => 112,
    }
}

/// The process exit code that reports a fatal condition.
pub fn exit_code(f: Fatal) -> (r: i32)
    ensures
        r == exit_code_of(f),
        100 <= r <= 112,
{
    match f {
        Fatal::ConfigPath => 100,
        Fatal::Config => 101,
        Fatal::NoAddress => 102,
        Fatal::BaseUrl => 103,
        Fatal::ZonesUrl => 104,
        Fatal::ZonesApi => 105,
        Fatal::ZonesResponse => 106,
        Fatal::ZonesDecode => 107,
        Fatal::RecordsUrl => 108,
        Fatal::RecordsDecode => 110,
        Fatal::RecordUrl => 112,
    }
}

/// Distinct fatal conditions are reported with distinct exit codes.
pub proof fn lemma_exit_codes_distinct(f: Fatal, g: Fatal)
    ensures
        exit_code_of(f) == exit_code_of(g) ==> f == g,
{
}

/// Whether an HTTP status code is in the success range `200..=299`.
pub fn is_http_success(status: u16) -> (r: bool)
    ensures
        r == (200 <= status && status < 300),
{
    200 <= status && status < 300
}

/// Accepts a provider response only if the transport reported success and the
/// decoded envelope's `success` flag is true, checked in that order.
/// `envelope_success` is `None` where the body could not be decoded.
pub fn check_response(status: u16, envelope_success: Option<bool>) -> (r: Result<(), ErrorKind>)
    ensures
        !(200 <= status && status < 300) ==> r == Err::<(), ErrorKind>(ErrorKind::NoSuccessHttp),
        (200 <= status && status < 300) ==> r == match envelope_success {
            None => Err(ErrorKind::Json),
            Some(false) => Err(ErrorKind::NoSuccessJson),
            Some(true) => Ok(()),
        },
{
    if !is_http_success(status) {
        return Err(ErrorKind::NoSuccessHttp);
    }
    match envelope_success {
        None => Err(ErrorKind::Json),
        Some(false) => Err(ErrorKind::NoSuccessJson),
        Some(true) => Ok(()),
    }
}

/// The fatal condition that a failure to list the zones ends the run with:
/// the transport failed, the provider rejected the request, or its answer
/// could not be decoded.
pub fn zone_listing_failure(e: ErrorKind) -> (r: Fatal)
    ensures
        r == match e {
            ErrorKind::Api => Fatal::ZonesApi,
            ErrorKind::Json => Fatal::ZonesDecode,
            _ => Fatal::ZonesResponse,
        },
{
    match e {
        ErrorKind::Api => Fatal::ZonesApi,
        ErrorKind::Json => Fatal::ZonesDecode,
        _ => Fatal::ZonesResponse,
    }
}

/// Whether a failure while listing one zone's records ends the whole run.
/// A response that cannot be decoded is a protocol violation and is fatal;
/// transport failures and rejected requests only skip that zone.
pub fn listing_failure_is_fatal(e: ErrorKind) -> (r: bool)
    ensures
        r == (e == ErrorKind::Json),
{
    match e {
        ErrorKind::Json => true,
        _ => false,
    }
}

} // verus!
