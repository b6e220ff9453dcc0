//! Summarization outcome: mapping the provider's HTTP status and decoded
//! response body into the summary text or a typed failure.

use vstd::prelude::*;
use vstd::string::StringExecFns;
use crate::json::JsonValue;
use crate::json::elem;
use crate::json::member;
use crate::json::str_val;
use crate::prompt::compose_prompt;
use crate::prompt::composed;
use crate::provider::generate_endpoint;
use crate::provider::generation_request_body;
use crate::provider::generation_request_seq;
use crate::sanitize::sanitize_markup;
use crate::sanitize::sanitized_seq;
use crate::text::string_of;

verus! {

/// A failure of the summarization pipeline: the page fetch failed, the
/// provider was unreachable, the provider answered with a non-success
/// status, or its response did not have the expected shape.
#[derive(Debug)]
pub enum SummaryError {
    Fetch(String),
    Transport(String),
    Provider { status: u16, message: String },
    ResponseShape(String),
}

/// The decimal digit character for `d`.
pub open spec fn dec_digit(d: int) -> char
    recommends
        0 <= d < 10,
{
    ((48 + d) as u8) as char
}

/// The decimal representation of `n`, most significant digit first.
pub open spec fn dec_rep(n: nat) -> Seq<char>
    decreases n,
{
    if n < 10 {
        seq![dec_digit(n as int)]
    } else {
        dec_rep(n / 10) + seq![dec_digit((n % 10) as int)]
    }
}

fn dec_digit_char(d: u16) -> (r: char)
    requires
        d < 10,
    ensures
        r == dec_digit(d as int),
{
    (48 + d as u8) as char
}

/// Writes `n` in decimal.
fn u16_decimal(n: u16) -> (r: String)
    ensures
        r@ == dec_rep(n as nat),
{
    let mut digits: Vec<char> = Vec::new();
    let mut m: u16 = n;
    proof {
        assert(dec_rep(m as nat) + digits@ =~= dec_rep(n as nat));
    }
    while m >= 10
        invariant
            dec_rep(n as nat) == dec_rep(m as nat) + digits@,
        decreases m,
    {
        let ghost digits0 = digits@;
        let d: u16 = m % 10;
        digits.insert(0, dec_digit_char(d));
        m = m / 10;
        proof {
            assert(digits@ =~= seq![dec_digit(d as int)] + digits0);
            assert(dec_rep(m as nat) + (seq![dec_digit(d as int)] + digits0) =~= dec_rep(
                m as nat,
            ) + seq![dec_digit(d as int)] + digits0);
        }
    }
    let ghost digits1 = digits@;
    digits.insert(0, dec_digit_char(m));
    proof {
        assert(digits@ =~= seq![dec_digit(m as int)] + digits1);
        assert(seq![dec_digit(m as int)] =~= dec_rep(m as nat));
    }
    string_of(&digits)
}

/// The one descriptive line for each failure: fetch and transport failures
/// carry their own message, a provider failure names the status and the
/// provider's message, a shape failure carries the raw response body.
pub open spec fn summary_error_seq(e: SummaryError) -> Seq<char> {
    match e {
        SummaryError::Fetch(m) => m@,
        SummaryError::Transport(m) => m@,
        SummaryError::Provider { status, message } => "Gemini API error "@ + dec_rep(status as nat)
            + ": "@ + message@,
        SummaryError::ResponseShape(body) => "Unexpected Gemini response: "@ + body@,
    }
}

impl SummaryError {
    /// Renders this failure as one descriptive line.
    pub fn message(&self) -> (r: String)
        ensures
            r@ == summary_error_seq(*self),
    {
        match self {
            SummaryError::Fetch(m) => m.clone(),
            SummaryError::Transport(m) => m.clone(),
            SummaryError::Provider { status, message } => {
                let mut r = String::from_str("Gemini API error ");
                let st = u16_decimal(*status);
                r.append(st.as_str());
                r.append(": ");
                r.append(message.as_str());
                r
            },
            SummaryError::ResponseShape(body) => {
                let mut r = String::from_str("Unexpected Gemini response: ");
                r.append(body.as_str());
                r
            },
        }
    }
}

/// An HTTP status that counts as success.
pub open spec fn success_status(status: u16) -> bool {
    200 <= status < 300
}

/// The text of the first candidate's first content part, when the response
/// has one.
pub open spec fn candidate_text(v: JsonValue) -> Option<Seq<char>> {
    match member(v, "candidates"@) {
        Some(cands) => match elem(cands, 0) {
            Some(c0) => match member(c0, "content"@) {
                Some(content) => match member(content, "parts"@) {
                    Some(parts) => match elem(parts, 0) {
                        Some(p0) => match member(p0, "text"@) {
                            Some(t) => str_val(t),
                            None => None,
                        },
                        None => None,
                    },
                    None => None,
                },
                None => None,
            },
            None => None,
        },
        None => None,
    }
}

/// The provider's reported error message, or a generic one when the error
/// payload is absent or malformed.
pub open spec fn provider_message(v: JsonValue) -> Seq<char> {
    match member(v, "error"@) {
        Some(e) => match member(e, "message"@) {
            Some(m) => match str_val(m) {
                Some(s) => s,
                None => "Unknown Gemini API error"@,
            },
            None => "Unknown Gemini API error"@,
        },
        None => "Unknown Gemini API error"@,
    }
}

/// The `candidates[0].content.parts[0].text` field of the response, when
/// present.
fn candidate_text_ref<'a>(v: &'a JsonValue) -> (r: Option<&'a String>)
    ensures
        match r {
            Some(s) => candidate_text(*v) == Some(s@),
            None => candidate_text(*v) is None,
        },
{
    let cands = match v.get("candidates") {
        Some(c) => c,
        None => {
            return None;
        },
    };
    let c0 = match cands.at(0) {
        Some(c) => c,
        None => {
            return None;
        },
    };
    let content = match c0.get("content") {
        Some(c) => c,
        None => {
            return None;
        },
    };
    let parts = match content.get("parts") {
        Some(p) => p,
        None => {
            return None;
        },
    };
    let p0 = match parts.at(0) {
        Some(p) => p,
        None => {
            return None;
        },
    };
    let t = match p0.get("text") {
        Some(t) => t,
        None => {
            return None;
        },
    };
    t.as_text()
}

/// The provider's reported error message, when the decoded response carries
/// one as `error.message`.
fn provider_message_of(v: &JsonValue) -> (r: String)
    ensures
        r@ == provider_message(*v),
{
    let e = match v.get("error") {
        Some(e) => e,
        None => {
            return String::from_str("Unknown Gemini API error");
        },
    };
    let m = match e.get("message") {
        Some(m) => m,
        None => {
            return String::from_str("Unknown Gemini API error");
        },
    };
    match m.as_text() {
        Some(s) => s.clone(),
        None => String::from_str("Unknown Gemini API error"),
    }
}

/// The whole client-side preparation of a generation call: the fetched
/// page's markup is sanitized, the sanitized text is substituted into the
/// template, and the composed prompt is framed into the provider's request
/// body. Returns the endpoint for `model` under the caller's API key, and
/// that body.
pub fn prepare_generation(html: &str, template: &str, model: &str, api_key: &str) -> (r: (
    String,
    String,
))
    ensures
        r.0@ == "https://generativelanguage.googleapis.com/v1beta/"@ + model@
            + ":generateContent?key="@ + api_key@,
        r.1@ == generation_request_seq(composed(template@, sanitized_seq(html@))),
{
    let text = sanitize_markup(html);
    let prompt = compose_prompt(template, text.as_str());
    let body = generation_request_body(prompt.as_str());
    let endpoint = generate_endpoint(model, api_key);
    (endpoint, body)
}

/// Maps the provider's content-generation answer to the summary text. A
/// non-success status fails with the status and the provider's reported
/// message; a success response without the expected candidate text fails
/// carrying the raw response body; otherwise the candidate text is returned
/// verbatim.
pub fn extract_summary(status: u16, v: &JsonValue, raw_body: &str) -> (r: Result<
    String,
    SummaryError,
>)
    ensures
        match r {
            Ok(text) => success_status(status) && candidate_text(*v) == Some(text@),
            Err(e) => match e {
                SummaryError::Provider { status: st, message } => st == status && !success_status(
                    status,
                ) && message@ == provider_message(*v),
                SummaryError::ResponseShape(b) => success_status(status) && candidate_text(*v)
                    is None && b@ == raw_body@,
                _ => false,
            },
        },
{
    if status < 200 || status >= 300 {
        let message = provider_message_of(v);
        return Err(SummaryError::Provider { status, message });
    }
    match candidate_text_ref(v) {
        Some(t) => Ok(t.clone()),
        None => Err(SummaryError::ResponseShape(raw_body.to_owned())),
    }
}

} // verus!
