//! Decisions of the request/response glue around the race: status-code
//! classification for each remote endpoint, and the policy guards applied
//! before a race is scheduled. The caller performs the HTTP exchanges and
//! hands the observed values in.

use vstd::prelude::*;
use vstd::string::StringExecFns;

verus! {

/// A release instant more than this far after the authentication instant is
/// rejected: the short-lived credential would expire before the race
/// (milliseconds in one day).
pub const MAX_RELEASE_LEAD_MS: i64 = 86400000;

/// What the authentication endpoint's status means.
#[derive(Clone, Copy, PartialEq, Eq, Structural, Debug)]
pub enum AuthVerdict {
    /// The credentials were accepted and a token accompanies the response.
    Accepted,
    /// The credentials were wrong.
    WrongCredentials,
    /// Any other status: unexpected, fatal to the run.
    Unexpected { status: u16 },
}

/// Classifies the authentication response: 200 accepted, 403 wrong
/// credentials, anything else unexpected.
pub fn classify_auth_status(status: u16) -> (r: AuthVerdict)
    ensures
        status == 200 ==> r == AuthVerdict::Accepted,
        status == 403 ==> r == AuthVerdict::WrongCredentials,
        status != 200 && status != 403 ==> r == (AuthVerdict::Unexpected { status }),
{
    if status == 200 {
        AuthVerdict::Accepted
    } else if status == 403 {
        AuthVerdict::WrongCredentials
    } else {
        AuthVerdict::Unexpected { status }
    }
}

/// Whether the account still has security questions in the way: 204 means
/// none, 403 means they must be answered; any other status is unexpected
/// and yields `None`.
pub fn security_questions_needed(status: u16) -> (r: Option<bool>)
    ensures
        status == 204 ==> r == Some(false),
        status == 403 ==> r == Some(true),
        status != 204 && status != 403 ==> r is None,
{
    if status == 204 {
        Some(false)
    } else if status == 403 {
        Some(true)
    } else {
        None
    }
}

/// What submitting security answers came to.
#[derive(Clone, Copy, PartialEq, Eq, Structural, Debug)]
pub enum SqVerdict {
    /// The answers were accepted.
    Accepted,
    /// The answers were wrong.
    WrongAnswers,
    /// Any other status: unexpected, fatal to the run.
    Unexpected { status: u16 },
}

/// Classifies the security-answer submission: 204 accepted, 403 wrong
/// answers, anything else unexpected.
pub fn classify_sq_submission(status: u16) -> (r: SqVerdict)
    ensures
        status == 204 ==> r == SqVerdict::Accepted,
        status == 403 ==> r == SqVerdict::WrongAnswers,
        status != 204 && status != 403 ==> r == (SqVerdict::Unexpected { status }),
{
    if status == 204 {
        SqVerdict::Accepted
    } else if status == 403 {
        SqVerdict::WrongAnswers
    } else {
        SqVerdict::Unexpected { status }
    }
}

/// Whether the challenge listing says the account has no security
/// questions: the service answers with the empty JSON array.
pub fn challenges_list_empty(body: &String) -> (r: bool)
    ensures
        r == (body@ == "[]"@),
{
    let empty = String::from_str("[]");
    *body == empty
}

/// Converts a release instant given in epoch seconds to epoch milliseconds;
/// `None` when the instant does not fit.
pub fn epoch_seconds_to_ms(secs: i64) -> (r: Option<i64>)
    ensures
        match r {
            Some(ms) => ms == secs * 1000,
            None => secs * 1000 > i64::MAX || secs * 1000 < i64::MIN,
        },
{
    secs.checked_mul(1000)
}

/// The policy guard on the release instant: a race whose release lies more
/// than the maximum lead after the authentication instant is rejected
/// before any attempt is scheduled. With no authentication instant on
/// record, nothing is rejected.
pub fn release_within_policy(release_ms: i64, auth_ms: Option<i64>) -> (r: bool)
    ensures
        r == match auth_ms {
            Some(auth) => release_ms - auth <= MAX_RELEASE_LEAD_MS,
            None => true,
        },
{
    match auth_ms {
        Some(auth) => {
            let lead: i128 = release_ms as i128 - auth as i128;
            lead <= MAX_RELEASE_LEAD_MS as i128
        },
        None => true,
    }
}

/// Whether the account may change its name now: the eligibility endpoint
/// must answer 200 and say the change is allowed.
pub fn name_change_eligible(status: u16, allowed: bool) -> (r: bool)
    ensures
        r == (status == 200 && allowed),
{
    status == 200 && allowed
}

/// How the skin upload is reported: any status other than 200 is announced
/// as a successful change, exactly as the service's reply is read.
pub fn skin_upload_reported_ok(status: u16) -> (r: bool)
    ensures
        r == (status != 200),
{
    status != 200
}

/// Whether redeeming a gift code went through: only status 200 counts.
pub fn giftcode_redeemed(status: u16) -> (r: bool)
    ensures
        r == (status == 200),
{
    status == 200
}

} // verus!
