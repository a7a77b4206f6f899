//! The completion payload of the streaming transcription command: a JSON
//! object carrying the transcript text and where it was stored.  The string
//! escaping is done by the JSON serializer; its exact output is stated here
//! and trusted.

use vstd::prelude::*;

verus! {

/// The lower-case hexadecimal digit for a value below sixteen.
pub open spec fn low_hex_digit(n: int) -> char {
    seq!['0', '1', '2', '3', '4', '5', '6', '7', '8', '9', 'a', 'b', 'c', 'd', 'e', 'f'][n]
}

/// How the JSON serializer escapes one character inside a string: the named
/// short escapes, `\u00` plus two hex digits for the other control
/// characters, and every other character unchanged.
pub open spec fn json_escaped_char(c: char) -> Seq<char> {
    if c == '"' {
        seq!['\\', '"']
    } else if c == '\\' {
        seq!['\\', '\\']
    } else if c == '\u{08}' {
        seq!['\\', 'b']
    } else if c == '\t' {
        seq!['\\', 't']
    } else if c == '\n' {
        seq!['\\', 'n']
    } else if c == '\u{0C}' {
        seq!['\\', 'f']
    } else if c == '\r' {
        seq!['\\', 'r']
    } else if (c as u32) < 0x20 {
        seq!['\\', 'u', '0', '0'] + seq![
            low_hex_digit(c as u32 as int / 16),
            low_hex_digit(c as u32 as int % 16),
        ]
    } else {
        seq![c]
    }
}

/// A string's characters, each escaped for JSON.
pub open spec fn json_escaped(s: Seq<char>) -> Seq<char>
    decreases s.len(),
{
    if s.len() == 0 {
        Seq::empty()
    } else {
        json_escaped_char(s[0]) + json_escaped(s.drop_first())
    }
}

/// A JSON string literal: the escaped text between double quotes.
pub open spec fn json_quoted(s: Seq<char>) -> Seq<char> {
    seq!['"'] + json_escaped(s) + seq!['"']
}

/// Relies on serde_json::to_string on a string slice: it wraps the text in
/// double quotes and escapes exactly `"`, `\` and the control characters
/// (the named short escapes, `\u00` plus two lower-case hex digits
/// otherwise); on a string it never fails.
#[verifier::external_body]
fn json_quote(s: &str) -> (r: String)
    ensures
        r@ == json_quoted(s@),
{
    serde_json::to_string(s).unwrap()
}

/// The completion event's payload: a JSON object with the transcript text
/// and the project paths, its keys in the lexicographic order in which the
/// serializer's map emits them.
pub open spec fn done_response_spec(
    transcription: Seq<char>,
    project_dir: Seq<char>,
    json_file: Seq<char>,
) -> Seq<char> {
    "{\"json_file\":"@ + json_quoted(json_file) + ",\"project_dir\":"@ + json_quoted(project_dir)
        + ",\"transcription\":"@ + json_quoted(transcription) + "}"@
}

/// Build the completion event's payload for a finished transcription.
pub fn done_response(transcription: &str, project_dir: &str, json_file: &str) -> (r: String)
    ensures
        r@ == done_response_spec(transcription@, project_dir@, json_file@),
{
    let q_tr = json_quote(transcription);
    let q_pd = json_quote(project_dir);
    let q_jf = json_quote(json_file);
    let mut r = String::from_str("{\"json_file\":");
    r.append(q_jf.as_str());
    r.append(",\"project_dir\":");
    r.append(q_pd.as_str());
    r.append(",\"transcription\":");
    r.append(q_tr.as_str());
    r.append("}");
    proof {
        assert(r@ =~= done_response_spec(transcription@, project_dir@, json_file@));
    }
    r
}

} // verus!
