//! Interpretation of the charger's status reply.

use vstd::prelude::*;

use crate::decimal::{decimal, decimal_string};

verus! {

/// The work mode that the charger reports while it is charging.
pub const CHARGING_WORK_MODE: u8 = 1;

/// The part of the charger's status reply that is modelled: its work mode.
#[derive(Clone, Copy, Debug, PartialEq, Eq, Structural)]
pub struct ChargerStatusResponse {
    pub work_mode: u8,
}

impl ChargerStatusResponse {
    /// Whether the charger is charging: only work mode 1 counts as such.
    pub open spec fn spec_is_charging(&self) -> bool {
        self.work_mode == CHARGING_WORK_MODE
    }

    pub fn is_charging(&self) -> (r: bool)
        ensures
            r == self.spec_is_charging(),
    {
        self.work_mode == CHARGING_WORK_MODE
    }
}

/// Whether an HTTP status code reports success (the 2xx range).
pub open spec fn spec_is_success(code: u16) -> bool {
    200 <= code && code < 300
}

/// Whether an HTTP status code reports success (the 2xx range). Only then is
/// the reply's body read.
pub fn is_success_status(code: u16) -> (r: bool)
    ensures
        r == spec_is_success(code),
{
    200 <= code && code < 300
}

/// What one status check found.
#[derive(Clone, Copy, Debug, PartialEq, Eq, Structural)]
pub enum StatusReport {
    Charging,
    NotCharging,
    /// The charger answered with this non-success HTTP status code.
    HttpError(u16),
}

/// The report for a reply with status `code`, where the reply carries no
/// body worth reading: `None` for a success code, whose body must be read
/// first, and the HTTP error otherwise.
pub fn report_for_status(code: u16) -> (r: Option<StatusReport>)
    ensures
        spec_is_success(code) <==> r is None,
        !spec_is_success(code) ==> r == Some(StatusReport::HttpError(code)),
{
    if is_success_status(code) {
        None
    } else {
        Some(StatusReport::HttpError(code))
    }
}

/// The report for a successful reply whose body was read as `resp`.
pub fn report_for_body(resp: &ChargerStatusResponse) -> (r: StatusReport)
    ensures
        resp.spec_is_charging() ==> r == StatusReport::Charging,
        !resp.spec_is_charging() ==> r == StatusReport::NotCharging,
{
    if resp.is_charging() {
        StatusReport::Charging
    } else {
        StatusReport::NotCharging
    }
}

/// The standard reason phrase of an HTTP status code, where it has one.
pub uninterp spec fn reason_phrase_of(code: u16) -> Option<Seq<char>>;

/// Relies on http's `StatusCode::canonical_reason` (re-exported by reqwest):
/// the phrase depends on the code alone. `StatusCode::from_u16` only turns
/// the number into a `StatusCode`; it accepts exactly the codes 100 to 999.
#[verifier::external_body]
fn canonical_reason(code: u16) -> (r: Option<String>)
    requires
        100 <= code <= 999,
    ensures
        r is None <==> reason_phrase_of(code) is None,
        r is Some ==> reason_phrase_of(code) == Some(r->0@),
{
    match reqwest::StatusCode::from_u16(code) {
        Ok(status) => status.canonical_reason().map(String::from),
        Err(_) => None,
    }
}

/// The reason phrase shown for `code`: the standard one for a valid status
/// code that has one, else none.
pub open spec fn reason_for(code: u16) -> Option<Seq<char>> {
    if 100 <= code <= 999 {
        reason_phrase_of(code)
    } else {
        None
    }
}

/// A present text, as characters.
pub open spec fn text_view(t: Option<String>) -> Option<Seq<char>> {
    match t {
        Some(s) => Some(s@),
        None => None,
    }
}

/// The line for a failed status request: the code, then its reason phrase,
/// or a note that the code has none.
pub open spec fn http_error_line(code: u16, reason: Option<Seq<char>>) -> Seq<char> {
    "Failed to get charger status. HTTP Error: "@ + decimal(code as nat) + " "@ + match reason {
        Some(phrase) => phrase,
        None => "<unknown status code>"@,
    }
}

/// The line shown for each report.
pub open spec fn report_text(r: StatusReport) -> Seq<char> {
    match r {
        StatusReport::Charging => "The charger is currently in charging mode."@,
        StatusReport::NotCharging => "The charger is not charging."@,
        StatusReport::HttpError(code) => http_error_line(code, reason_for(code)),
    }
}

/// The line for a failed status request with status `code`, given the
/// code's reason phrase, if it has one.
pub fn http_error_message(code: u16, reason: &Option<String>) -> (r: String)
    ensures
        r@ == http_error_line(code, text_view(*reason)),
{
    let s = String::from_str("Failed to get charger status. HTTP Error: ");
    let digits = decimal_string(code as u64);
    let s = s.concat(digits.as_str());
    let s = s.concat(" ");
    let r = match reason {
        Some(phrase) => s.concat(phrase.as_str()),
        None => s.concat("<unknown status code>"),
    };
    r
}

impl StatusReport {
    /// The human-readable line for this report.
    pub fn message(&self) -> (r: String)
        ensures
            r@ == report_text(*self),
    {
        match self {
            StatusReport::Charging => String::from_str("The charger is currently in charging mode."),
            StatusReport::NotCharging => String::from_str("The charger is not charging."),
            StatusReport::HttpError(code) => {
                let reason = if 100 <= *code && *code <= 999 {
                    canonical_reason(*code)
                } else {
                    None
                };
                http_error_message(*code, &reason)
            },
        }
    }
}

} // verus!
