use vstd::prelude::*;

use reqwest::header::{HeaderValue, InvalidHeaderValue};

verus! {

#[verifier::external_type_specification]
#[verifier::external_body]
pub struct ExHeaderValue(HeaderValue);

#[verifier::external_type_specification]
#[verifier::external_body]
pub struct ExInvalidHeaderValue(InvalidHeaderValue);

/// A character that an HTTP header value may hold: a visible character, a
/// space or a tab (no other control character, no DEL).
pub open spec fn header_char_ok(c: char) -> bool {
    (c as u32 >= 32 && c as u32 != 127) || c == '\t'
}

pub open spec fn header_text_ok(s: Seq<char>) -> bool {
    forall|i: int| 0 <= i < s.len() ==> #[trigger] header_char_ok(s[i])
}

/// Relies on `HeaderValue::from_str` (http, through reqwest): it fails exactly
/// when a byte of the text is below 32 and not a tab, or is 127. Every byte of a
/// character beyond ASCII is 128 or more, so the test reads the same on characters.
#[verifier::external_body]
fn header_value(s: &str) -> (r: Result<HeaderValue, InvalidHeaderValue>)
    ensures
        r is Ok <==> header_text_ok(s@),
{
    HeaderValue::from_str(s)
}

/// Errors of the OctoPrint client.
#[derive(Debug)]
pub enum OctoPrintError {
    /// The API key cannot stand in an HTTP header.
    InvalidApiKey,
}

/// The file of the job that OctoPrint is running.
#[derive(Debug)]
pub struct JobFile {
    pub name: Option<String>,
}

/// OctoPrint's current job, as far as it is read here.
#[derive(Debug)]
pub struct CurrentJob {
    pub file: Option<JobFile>,
}

/// The value of the `Authorization` header for an OctoPrint API key; without a
/// key requests go unauthenticated.
pub fn authorization_value(api_key: Option<&str>) -> (r: Option<String>)
    ensures
        match api_key {
            Some(k) => r matches Some(v) && v@ == "Bearer "@ + k@,
            None => r is None,
        },
{
    match api_key {
        Some(k) => Some("Bearer ".to_owned().concat(k)),
        None => None,
    }
}

/// The `Authorization` header for an OctoPrint API key, or none without a key;
/// fails when the key holds a character that a header cannot carry.
pub fn authorization_header(api_key: Option<&str>) -> (r: Result<Option<HeaderValue>, OctoPrintError>)
    ensures
        match api_key {
            Some(k) => (r is Ok <==> header_text_ok("Bearer "@ + k@)) && (r matches Ok(h) ==> h is Some)
                && (r matches Err(e) ==> e is InvalidApiKey),
            None => r matches Ok(h) && h is None,
        },
{
    match authorization_value(api_key) {
        Some(v) => match header_value(v.as_str()) {
            Ok(h) => Ok(Some(h)),
            Err(_) => Err(OctoPrintError::InvalidApiKey),
        },
        None => Ok(None),
    }
}

/// The name of the file that the current job prints, if OctoPrint reports one.
pub fn current_job_filename(job: CurrentJob) -> (r: Option<String>)
    ensures
        r == match job.file {
            Some(f) => f.name,
            None => None,
        },
{
    match job.file {
        Some(f) => f.name,
        None => None,
    }
}

} // verus!
