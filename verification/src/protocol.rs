//! The wire side of an attempt: hand-built request text, the partial-request
//! buffer whose terminator is withheld until the critical instant, and the
//! parser for the fixed-size response prefix.

use vstd::prelude::*;
use vstd::string::StringExecFns;

verus! {

/// The status code with which the remote service accepts an attempt.
pub const ACCEPTED_STATUS: u16 = 200;

/// Number of response bytes an attempt reads: enough to hold
/// `HTTP/1.1 NNN`.
pub const RESPONSE_PREFIX_LEN: usize = 12;

pub open spec fn is_ascii_digit(b: u8) -> bool {
    48 <= b <= 57
}

/// The status code embedded in a response prefix: the three bytes after
/// `HTTP/1.1 ` read as decimal digits, or nothing when the prefix is too
/// short or those bytes are not digits.
pub open spec fn status_of_spec(buf: Seq<u8>) -> Option<u16> {
    if buf.len() >= 12 && is_ascii_digit(buf[9]) && is_ascii_digit(buf[10]) && is_ascii_digit(
        buf[11],
    ) {
        Some((100 * (buf[9] - 48) + 10 * (buf[10] - 48) + (buf[11] - 48)) as u16)
    } else {
        None
    }
}

/// Reads the status code out of the fixed-size response prefix. A prefix
/// that is too short or does not carry three digits in the status position
/// yields `None` (a malformed response fails the attempt, it never panics).
pub fn parse_status_prefix(buf: &[u8]) -> (r: Option<u16>)
    ensures
        r == status_of_spec(buf@),
{
    if buf.len() < RESPONSE_PREFIX_LEN {
        return None;
    }
    let b9 = buf[9];
    let b10 = buf[10];
    let b11 = buf[11];
    if 48 <= b9 && b9 <= 57 && 48 <= b10 && b10 <= 57 && 48 <= b11 && b11 <= 57 {
        let status: u16 = 100 * ((b9 - 48) as u16) + 10 * ((b10 - 48) as u16) + ((b11 - 48) as u16);
        Some(status)
    } else {
        None
    }
}

/// The JSON text of the given characters as a JSON string value: quoted and
/// escaped. Named here; `json_quote` below produces it.
pub uninterp spec fn json_string_of(s: Seq<char>) -> Seq<char>;

/// Relies on serde_json's Display for `Value`: serialising a string value
/// yields its quoted, escaped JSON text, a function of the characters alone.
#[verifier::external_body]
fn json_quote(s: &str) -> (r: String)
    ensures
        r@ == json_string_of(s@),
{
    serde_json::Value::String(s.to_string()).to_string()
}

/// The body of the bulk ("general catalog") request: a JSON object naming
/// the profile to create.
pub open spec fn profile_create_body_spec(username: Seq<char>) -> Seq<char> {
    "{\"profileName\":"@ + json_string_of(username) + "}"@
}

/// Builds the JSON body naming the profile to create.
pub fn profile_create_body(username: &str) -> (r: String)
    ensures
        r@ == profile_create_body_spec(username@),
{
    let mut s = String::from_str("{\"profileName\":");
    let quoted = json_quote(username);
    s.append(quoted.as_str());
    s.append("}");
    s
}

/// The staged part of the plain name-change request: request line and
/// headers, ending one blank line short of a complete request.
pub open spec fn name_change_prefix_spec(username: Seq<char>, bearer: Seq<char>) -> Seq<char> {
    "PUT /minecraft/profile/name/"@ + username
        + " HTTP/1.1\r\nHost: api.minecraftservices.com\r\nAuthorization: Bearer "@ + bearer
        + "\r\n"@
}

/// Builds the staged part of the plain name-change request.
pub fn name_change_prefix(username: &str, bearer: &str) -> (r: String)
    ensures
        r@ == name_change_prefix_spec(username@, bearer@),
{
    let mut s = String::from_str("PUT /minecraft/profile/name/");
    s.append(username);
    s.append(" HTTP/1.1\r\nHost: api.minecraftservices.com\r\nAuthorization: Bearer ");
    s.append(bearer);
    s.append("\r\n");
    s
}

/// The staged part of the bulk profile-creation request: request line,
/// headers, blank line and JSON body; the final terminator is still
/// withheld.
pub open spec fn profile_create_prefix_spec(username: Seq<char>, bearer: Seq<char>) -> Seq<char> {
    "POST /minecraft/profile HTTP/1.1\r\nHost: api.minecraftservices.com\r\nAccept: application/json\r\nAuthorization: Bearer "@
        + bearer + "\r\n\r\n"@ + profile_create_body_spec(username)
}

/// Builds the staged part of the bulk profile-creation request.
pub fn profile_create_prefix(username: &str, bearer: &str) -> (r: String)
    ensures
        r@ == profile_create_prefix_spec(username@, bearer@),
{
    let mut s = String::from_str(
        "POST /minecraft/profile HTTP/1.1\r\nHost: api.minecraftservices.com\r\nAccept: application/json\r\nAuthorization: Bearer ",
    );
    s.append(bearer);
    s.append("\r\n\r\n");
    let body = profile_create_body(username);
    s.append(body.as_str());
    s
}

/// The calibration variant of the name-change request: shaped like a real
/// attempt but carrying a placeholder credential.
pub fn calibration_name_change_prefix(username: &str) -> (r: String)
    ensures
        r@ == name_change_prefix_spec(username@, "token"@),
{
    name_change_prefix(username, "token")
}

/// The calibration variant of the bulk request: shaped like a real attempt
/// but carrying a placeholder credential and no Accept header.
pub open spec fn calibration_profile_create_prefix_spec(username: Seq<char>) -> Seq<char> {
    "POST /minecraft/profile HTTP/1.1\r\nHost: api.minecraftservices.com\r\nAuthorization: Bearer token\r\n\r\n"@
        + profile_create_body_spec(username)
}

/// Builds the calibration variant of the bulk request.
pub fn calibration_profile_create_prefix(username: &str) -> (r: String)
    ensures
        r@ == calibration_profile_create_prefix_spec(username@),
{
    let mut s = String::from_str(
        "POST /minecraft/profile HTTP/1.1\r\nHost: api.minecraftservices.com\r\nAuthorization: Bearer token\r\n\r\n",
    );
    let body = profile_create_body(username);
    s.append(body.as_str());
    s
}

pub open spec fn digit_char(d: int) -> char {
    if d == 0 {
        '0'
    } else if d == 1 {
        '1'
    } else if d == 2 {
        '2'
    } else if d == 3 {
        '3'
    } else if d == 4 {
        '4'
    } else if d == 5 {
        '5'
    } else if d == 6 {
        '6'
    } else if d == 7 {
        '7'
    } else if d == 8 {
        '8'
    } else {
        '9'
    }
}

/// The decimal text of a byte, without leading zeroes.
pub open spec fn u8_decimal_spec(n: u8) -> Seq<char> {
    if n < 10 {
        seq![digit_char(n as int)]
    } else if n < 100 {
        seq![digit_char(n as int / 10), digit_char(n as int % 10)]
    } else {
        seq![
            digit_char(n as int / 100),
            digit_char((n as int / 10) % 10),
            digit_char(n as int % 10),
        ]
    }
}

fn digit_str(d: u8) -> (r: &'static str)
    requires
        d < 10,
    ensures
        r@ == seq![digit_char(d as int)],
{
    if d == 0 {
        proof {
            reveal_strlit("0");
        }
        assert("0"@ =~= seq![digit_char(0)]);
        "0"
    } else if d == 1 {
        proof {
            reveal_strlit("1");
        }
        assert("1"@ =~= seq![digit_char(1)]);
        "1"
    } else if d == 2 {
        proof {
            reveal_strlit("2");
        }
        assert("2"@ =~= seq![digit_char(2)]);
        "2"
    } else if d == 3 {
        proof {
            reveal_strlit("3");
        }
        assert("3"@ =~= seq![digit_char(3)]);
        "3"
    } else if d == 4 {
        proof {
            reveal_strlit("4");
        }
        assert("4"@ =~= seq![digit_char(4)]);
        "4"
    } else if d == 5 {
        proof {
            reveal_strlit("5");
        }
        assert("5"@ =~= seq![digit_char(5)]);
        "5"
    } else if d == 6 {
        proof {
            reveal_strlit("6");
        }
        assert("6"@ =~= seq![digit_char(6)]);
        "6"
    } else if d == 7 {
        proof {
            reveal_strlit("7");
        }
        assert("7"@ =~= seq![digit_char(7)]);
        "7"
    } else if d == 8 {
        proof {
            reveal_strlit("8");
        }
        assert("8"@ =~= seq![digit_char(8)]);
        "8"
    } else {
        proof {
            reveal_strlit("9");
        }
        assert("9"@ =~= seq![digit_char(9)]);
        "9"
    }
}

/// Writes a byte as decimal text, without leading zeroes.
pub fn u8_to_decimal(n: u8) -> (r: String)
    ensures
        r@ == u8_decimal_spec(n),
{
    if n < 10 {
        String::from_str(digit_str(n))
    } else if n < 100 {
        let mut s = String::from_str(digit_str(n / 10));
        s.append(digit_str(n % 10));
        proof {
            assert(s@ =~= u8_decimal_spec(n));
        }
        s
    } else {
        let mut s = String::from_str(digit_str(n / 100));
        s.append(digit_str((n / 10) % 10));
        s.append(digit_str(n % 10));
        proof {
            assert(s@ =~= u8_decimal_spec(n));
        }
        s
    }
}

/// One entry of the security-answer submission: a challenge id and its
/// answer as a JSON object.
pub open spec fn sq_entry_spec(id: u8, answer: Seq<char>) -> Seq<char> {
    "{\"id\":"@ + u8_decimal_spec(id) + ",\"answer\":"@ + json_string_of(answer) + "}"@
}

fn sq_entry(id: u8, answer: &str) -> (r: String)
    ensures
        r@ == sq_entry_spec(id, answer@),
{
    let mut s = String::from_str("{\"id\":");
    let decimal = u8_to_decimal(id);
    s.append(decimal.as_str());
    s.append(",\"answer\":");
    let quoted = json_quote(answer);
    s.append(quoted.as_str());
    s.append("}");
    s
}

/// The body of the security-answer submission: the three challenge ids with
/// their answers, as a JSON array.
pub open spec fn security_answers_body_spec(ids: Seq<u8>, answers: Seq<Seq<char>>) -> Seq<char>
    recommends
        ids.len() == 3,
        answers.len() == 3,
{
    "["@ + sq_entry_spec(ids[0], answers[0]) + ","@ + sq_entry_spec(ids[1], answers[1]) + ","@
        + sq_entry_spec(ids[2], answers[2]) + "]"@
}

/// Builds the body of the security-answer submission.
pub fn security_answers_body(ids: [u8; 3], answers: [&str; 3]) -> (r: String)
    ensures
        r@ == security_answers_body_spec(ids@, answers@.map_values(|a: &str| a@)),
{
    let mut s = String::from_str("[");
    let e0 = sq_entry(ids[0], answers[0]);
    s.append(e0.as_str());
    s.append(",");
    let e1 = sq_entry(ids[1], answers[1]);
    s.append(e1.as_str());
    s.append(",");
    let e2 = sq_entry(ids[2], answers[2]);
    s.append(e2.as_str());
    s.append("]");
    s
}

/// A request primed on a connection ahead of time: all of its text except
/// the final terminator. The terminator can be taken exactly once.
pub struct PartialRequest {
    pub prefix: String,
    pub terminator_sent: bool,
}

impl PartialRequest {
    /// Stages a request: everything up to, but not including, the final
    /// terminator.
    pub fn stage(prefix: String) -> (r: PartialRequest)
        ensures
            r.prefix@ == prefix@,
            !r.terminator_sent,
    {
        PartialRequest { prefix, terminator_sent: false }
    }

    /// The staged text, written to the connection as soon as it is open.
    pub fn staged(&self) -> (r: &String)
        ensures
            r@ == self.prefix@,
    {
        &self.prefix
    }

    /// Takes the withheld terminator for flushing at the critical instant.
    /// It can be taken only once per request.
    pub fn complete(&mut self) -> (t: &'static str)
        requires
            !old(self).terminator_sent,
        ensures
            final(self).terminator_sent,
            final(self).prefix@ == old(self).prefix@,
            t@ == "\r\n"@,
    {
        self.terminator_sent = true;
        "\r\n"
    }
}

} // verus!
