//! Deciding whether the backend is ready to serve, from the answer to a
//! health request.

use vstd::prelude::*;

verus! {

/// What a health request brought back.
#[derive(Clone, Copy, Debug, PartialEq, Eq, Structural)]
pub enum HealthProbe {
    /// The backend answered with this HTTP status code.
    Status(u16),
    /// No answer could be had: the connection failed, or what came back was
    /// not an HTTP response.
    Unreachable,
}

/// The backend is ready exactly when it answered with a status in the 2xx
/// range.
pub open spec fn spec_healthy(probe: HealthProbe) -> bool {
    probe matches HealthProbe::Status(code) && 200 <= code <= 299
}

/// Whether a byte is an ASCII decimal digit.
pub open spec fn is_digit(byte: u8) -> bool {
    48 <= byte <= 57
}

/// The status code of an HTTP response, if `response` begins with a status
/// line: the bytes `HTTP/`, a digit, a dot, a digit, one space, and a code of
/// exactly three digits.
pub open spec fn spec_status_code(response: Seq<u8>) -> Option<u16> {
    if response.len() >= 12 && response[0] == 72 && response[1] == 84 && response[2] == 84
        && response[3] == 80 && response[4] == 47 && is_digit(response[5]) && response[6] == 46
        && is_digit(response[7]) && response[8] == 32 && is_digit(response[9]) && is_digit(
        response[10],
    ) && is_digit(response[11]) && (response.len() == 12 || !is_digit(response[12])) {
        Some(
            (100 * (response[9] - 48) + 10 * (response[10] - 48) + (response[11] - 48)) as u16,
        )
    } else {
        None
    }
}

/// What a response, as received, says about the backend.
pub open spec fn spec_probe(response: Seq<u8>) -> HealthProbe {
    match spec_status_code(response) {
        Some(code) => HealthProbe::Status(code),
        None => HealthProbe::Unreachable,
    }
}

fn digit(byte: u8) -> (yes: bool)
    ensures
        yes == is_digit(byte),
{
    48 <= byte && byte <= 57
}

/// Reads the status code off the start of an HTTP response.
pub fn read_status(response: &[u8]) -> (code: Option<u16>)
    ensures
        code == spec_status_code(response@),
{
    if response.len() < 12 {
        return None;
    }
    let tagged: bool = response[0] == 72 && response[1] == 84 && response[2] == 84
        && response[3] == 80 && response[4] == 47;
    let versioned: bool = digit(response[5]) && response[6] == 46 && digit(response[7])
        && response[8] == 32;
    let coded: bool = digit(response[9]) && digit(response[10]) && digit(response[11]) && (
    response.len() == 12 || !digit(response[12]));
    if tagged && versioned && coded {
        let hundreds: u16 = (response[9] - 48) as u16;
        let tens: u16 = (response[10] - 48) as u16;
        let units: u16 = (response[11] - 48) as u16;
        Some(100 * hundreds + 10 * tens + units)
    } else {
        None
    }
}

/// Turns the bytes received in answer to a health request into a probe.
/// Anything that is not an HTTP response counts as no answer.
pub fn probe_from_response(response: &[u8]) -> (probe: HealthProbe)
    ensures
        probe == spec_probe(response@),
{
    match read_status(response) {
        Some(code) => HealthProbe::Status(code),
        None => HealthProbe::Unreachable,
    }
}

/// Whether the backend is ready. A failed connection is an answer like any
/// other: the backend is then not ready.
pub fn check_health(probe: HealthProbe) -> (ready: bool)
    ensures
        ready == spec_healthy(probe),
{
    match probe {
        HealthProbe::Status(code) => 200 <= code && code <= 299,
        HealthProbe::Unreachable => false,
    }
}

/// A backend that cannot be reached is not ready, and one that answers with
/// status 200 is.
pub proof fn law_health_follows_the_answer()
    ensures
        !spec_healthy(HealthProbe::Unreachable),
        spec_healthy(HealthProbe::Status(200)),
{
}

} // verus!
