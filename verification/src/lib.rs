//! Checks whether a crate name is still available on the crates.io registry.
//!
//! A check is one bounded lookup request: the name is validated, the registry
//! URL is built, and whatever the transport produced is classified as
//! [`Availability`]. Everything that decides is here and verified; the request
//! itself is network I/O and is performed by the caller, who hands the
//! [`LookupOutcome`] back to be classified.

use vstd::prelude::*;

verus! {

/// Default bound on the lookup request, in milliseconds: five seconds.
pub const DEFAULT_TIMEOUT_MS: u64 = 5000;

/// The availability status of a crate name.
#[derive(Clone, Copy, Debug, Eq, Hash, PartialEq, Structural)]
pub enum Availability {
    /// The crate name is available.
    Available,
    /// The crate name is unavailable.
    Unavailable,
    /// The crate name can't be resolved.
    Unknown,
}

/// Why a check failed before any request was made.
#[derive(Clone, Copy, Debug, Eq, PartialEq, Structural)]
pub enum CheckError {
    /// The candidate name was empty; nothing was looked up.
    EmptyName,
}

/// What the single lookup request produced.
#[derive(Clone, Copy, Debug, Eq, PartialEq, Structural)]
pub enum LookupOutcome {
    /// A response arrived, carrying this HTTP status code.
    Status(u16),
    /// The request timed out, or failed at the transport level.
    NoResponse,
}

/// A prepared lookup request: where to send it, and how long to wait.
pub struct LookupRequest {
    /// The registry URL to issue a GET request against.
    pub url: String,
    /// The bound on the whole round trip, in milliseconds.
    pub timeout_ms: u64,
}

/// The human-readable text for each classification.
pub open spec fn label_spec(availability: Availability) -> Seq<char> {
    match availability {
        Availability::Available => "Available"@,
        Availability::Unavailable => "Unavailable"@,
        Availability::Unknown => "Unknown"@,
    }
}

impl Availability {
    /// Renders the classification as its human-readable text. Terminal
    /// consumers may colorize this label; that is presentation, not part
    /// of the classification.
    pub fn label(&self) -> (text: String)
        ensures
            text@ == label_spec(*self),
    {
        match self {
            Availability::Available => "Available".to_owned(),
            Availability::Unavailable => "Unavailable".to_owned(),
            Availability::Unknown => "Unknown".to_owned(),
        }
    }
}

/// The registry query URL for a name: the fixed template with the name
/// interpolated verbatim at its end.
pub open spec fn lookup_url_spec(name: Seq<char>) -> Seq<char> {
    "https://crates.io/api/v1/crates/"@ + name
}

/// How a transport outcome is read: 200 means the name is taken, 404 means
/// no such entry exists, and anything else - an unexpected status, a timeout,
/// a transport failure - leaves the question open.
pub open spec fn classify_spec(outcome: LookupOutcome) -> Availability {
    match outcome {
        LookupOutcome::Status(code) => {
            if code == 200 {
                Availability::Unavailable
            } else if code == 404 {
                Availability::Available
            } else {
                Availability::Unknown
            }
        },
        LookupOutcome::NoResponse => Availability::Unknown,
    }
}

/// The result of a whole check. An empty name is the one hard error; for any
/// other name the transport outcome alone decides. The timeout bounds the
/// round trip while it is in flight and plays no part once the outcome is
/// known, so it is carried here only to mirror the entry points.
pub open spec fn check_spec(
    name: Seq<char>,
    timeout_ms: u64,
    outcome: LookupOutcome,
) -> Result<Availability, CheckError> {
    if name.len() == 0 {
        Err(CheckError::EmptyName)
    } else {
        Ok(classify_spec(outcome))
    }
}

/// Builds the registry query URL for a name.
pub fn lookup_url(name: &str) -> (url: String)
    ensures
        url@ == lookup_url_spec(name@),
{
    String::from_str("https://crates.io/api/v1/crates/").concat(name)
}

/// Validates a candidate name and prepares the one lookup request a check is
/// allowed: an empty name is rejected here, before any request exists.
pub fn begin_check(name: &str, timeout_ms: u64) -> (r: Result<LookupRequest, CheckError>)
    ensures
        name@.len() == 0 ==> (r matches Err(e) && e == CheckError::EmptyName),
        name@.len() > 0 ==> (r matches Ok(req) && req.url@ == lookup_url_spec(name@)
            && req.timeout_ms == timeout_ms),
{
    if name.is_empty() {
        Err(CheckError::EmptyName)
    } else {
        Ok(LookupRequest { url: lookup_url(name), timeout_ms })
    }
}

/// Classifies what the lookup request produced.
pub fn classify_lookup(outcome: LookupOutcome) -> (availability: Availability)
    ensures
        availability == classify_spec(outcome),
{
    match outcome {
        LookupOutcome::Status(code) => {
            if code == 200 {
                Availability::Unavailable
            } else if code == 404 {
                Availability::Available
            } else {
                Availability::Unknown
            }
        },
        LookupOutcome::NoResponse => Availability::Unknown,
    }
}

/// Checks the availability of a crate name, given what the lookup request
/// bounded by `timeout_ms` produced: an empty name fails with
/// [`CheckError::EmptyName`], any other name gets its outcome classified.
pub fn check_availability_with_timeout(
    name: &str,
    timeout_ms: u64,
    outcome: LookupOutcome,
) -> (r: Result<Availability, CheckError>)
    ensures
        r == check_spec(name@, timeout_ms, outcome),
{
    if name.is_empty() {
        Err(CheckError::EmptyName)
    } else {
        Ok(classify_lookup(outcome))
    }
}

/// Checks the availability of a crate name under the default five-second
/// request bound, given what that request produced.
pub fn check_availability(name: &str, outcome: LookupOutcome) -> (r: Result<
    Availability,
    CheckError,
>)
    ensures
        r == check_spec(name@, DEFAULT_TIMEOUT_MS, outcome),
{
    check_availability_with_timeout(name, DEFAULT_TIMEOUT_MS, outcome)
}

/// Law: every empty name is rejected, whatever outcome a transport could
/// have offered and whatever the timeout; no lookup request exists for it,
/// since [`begin_check`] returns none.
pub proof fn lemma_empty_name_rejected(name: Seq<char>, timeout_ms: u64, outcome: LookupOutcome)
    requires
        name.len() == 0,
    ensures
        check_spec(name, timeout_ms, outcome) == Err::<Availability, CheckError>(
            CheckError::EmptyName,
        ),
{
}

/// Law: the timeout bounds the round trip, never the classification: checks
/// that see one and the same outcome agree for every pair of timeouts. In
/// particular, the default entry point behaves exactly as the explicit one
/// does at five seconds.
pub proof fn lemma_timeout_never_affects_result(
    name: Seq<char>,
    timeout_a: u64,
    timeout_b: u64,
    outcome: LookupOutcome,
)
    ensures
        check_spec(name, timeout_a, outcome) == check_spec(name, timeout_b, outcome),
{
}

/// Law: a check is deterministic: repeated checks of one and the same name
/// whose requests produced one and the same outcome return one and the same
/// classification, with no state carried between calls.
pub proof fn lemma_repeated_checks_agree(
    name: Seq<char>,
    timeout_ms: u64,
    first: LookupOutcome,
    second: LookupOutcome,
)
    requires
        first == second,
    ensures
        check_spec(name, timeout_ms, first) == check_spec(name, timeout_ms, second),
{
}

} // verus!

