//! The provider wire format: the endpoints of the generative API and the
//! JSON body posted for content generation, with the string escaping that
//! framing a prompt into JSON needs.

use vstd::prelude::*;
use vstd::string::StringExecFns;
use crate::text::chars_of;
use crate::text::string_of;

verus! {

/// The hexadecimal digit character for `d`.
pub open spec fn hex_digit(d: int) -> char
    recommends
        0 <= d < 16,
{
    if d < 10 {
        ((48 + d) as u8) as char
    } else {
        ((87 + d) as u8) as char
    }
}

/// How one character is written inside a JSON string literal: quotes and
/// backslashes get a backslash escape, control characters their short or
/// `\u00..` form, and everything else stands for itself.
pub open spec fn esc_char(c: char) -> Seq<char> {
    if c == '"' {
        seq!['\\', '"']
    } else if c == '\\' {
        seq!['\\', '\\']
    } else if c == '\u{8}' {
        seq!['\\', 'b']
    } else if c == '\t' {
        seq!['\\', 't']
    } else if c == '\n' {
        seq!['\\', 'n']
    } else if c == '\u{c}' {
        seq!['\\', 'f']
    } else if c == '\r' {
        seq!['\\', 'r']
    } else if (c as u32) < 32 {
        seq!['\\', 'u', '0', '0', hex_digit((c as u32) as int / 16), hex_digit(
            (c as u32) as int % 16,
        )]
    } else {
        seq![c]
    }
}

/// `s` written as the inside of a JSON string literal.
pub open spec fn json_escaped(s: Seq<char>) -> Seq<char>
    decreases s.len(),
{
    if s.len() == 0 {
        Seq::empty()
    } else {
        esc_char(s[0]) + json_escaped(s.skip(1))
    }
}

fn hex_digit_char(d: u32) -> (r: char)
    requires
        d < 16,
    ensures
        r == hex_digit(d as int),
{
    if d < 10 {
        (48 + d as u8) as char
    } else {
        (87 + d as u8) as char
    }
}

/// Escapes `s` for inclusion in a JSON string literal.
fn json_escape_vec(s: &Vec<char>) -> (r: Vec<char>)
    ensures
        r@ == json_escaped(s@),
{
    let mut out: Vec<char> = Vec::new();
    let mut i: usize = 0;
    proof {
        assert(s@.skip(0) =~= s@);
        assert(out@ + json_escaped(s@) =~= json_escaped(s@));
    }
    while i < s.len()
        invariant
            i <= s@.len(),
            json_escaped(s@) == out@ + json_escaped(s@.skip(i as int)),
        decreases s@.len() - i,
    {
        let ghost pre = s@.skip(i as int);
        let ghost out0 = out@;
        let c = s[i];
        if c == '"' {
            out.push('\\');
            out.push('"');
        } else if c == '\\' {
            out.push('\\');
            out.push('\\');
        } else if c == '\u{8}' {
            out.push('\\');
            out.push('b');
        } else if c == '\t' {
            out.push('\\');
            out.push('t');
        } else if c == '\n' {
            out.push('\\');
            out.push('n');
        } else if c == '\u{c}' {
            out.push('\\');
            out.push('f');
        } else if c == '\r' {
            out.push('\\');
            out.push('r');
        } else if (c as u32) < 32 {
            let x: u32 = c as u32;
            out.push('\\');
            out.push('u');
            out.push('0');
            out.push('0');
            out.push(hex_digit_char(x / 16));
            out.push(hex_digit_char(x % 16));
        } else {
            out.push(c);
        }
        proof {
            assert(out@ =~= out0 + esc_char(s@[i as int]));
            assert(pre.skip(1) =~= s@.skip(i + 1));
            assert(out0 + (esc_char(pre[0]) + json_escaped(pre.skip(1))) =~= out@ + json_escaped(
                s@.skip(i + 1),
            ));
        }
        i = i + 1;
    }
    proof {
        assert(s@.skip(s@.len() as int) =~= Seq::<char>::empty());
        assert(json_escaped(s@) =~= out@);
    }
    out
}

/// The JSON body posted for content generation: one content with one part
/// holding the prompt text.
pub open spec fn generation_request_seq(prompt: Seq<char>) -> Seq<char> {
    "{\"contents\":[{\"parts\":[{\"text\":\""@ + json_escaped(prompt) + "\"}]}]}"@
}

/// Frames the prompt into the provider's content-generation request body.
pub fn generation_request_body(prompt: &str) -> (r: String)
    ensures
        r@ == generation_request_seq(prompt@),
{
    let v = chars_of(prompt);
    let escaped = json_escape_vec(&v);
    let escaped_s = string_of(&escaped);
    let mut r = String::from_str("{\"contents\":[{\"parts\":[{\"text\":\"");
    r.append(escaped_s.as_str());
    r.append("\"}]}]}");
    r
}

/// The model-listing endpoint, keyed by the caller's API key.
pub fn models_endpoint(api_key: &str) -> (r: String)
    ensures
        r@ == "https://generativelanguage.googleapis.com/v1beta/models?key="@ + api_key@,
{
    let mut r = String::from_str("https://generativelanguage.googleapis.com/v1beta/models?key=");
    r.append(api_key);
    r
}

/// The content-generation endpoint for `model`, keyed by the caller's API
/// key.
pub fn generate_endpoint(model: &str, api_key: &str) -> (r: String)
    ensures
        r@ == "https://generativelanguage.googleapis.com/v1beta/"@ + model@
            + ":generateContent?key="@ + api_key@,
{
    let mut r = String::from_str("https://generativelanguage.googleapis.com/v1beta/");
    r.append(model);
    r.append(":generateContent?key=");
    r.append(api_key);
    r
}

} // verus!
