//! Decoding of inbound transcript messages.
//!
//! Each structured frame from the remote endpoint is parsed as a generic
//! JSON document; the finality flag and the transcript text are read by
//! descending a fixed path, and an event is produced only when the trimmed
//! transcript is non-empty.

use vstd::prelude::*;
use vstd::string::StringExecFns;
use crate::json::{
    JsonModel, json_of, spec_field, spec_element, parse_value, get_field, get_element,
    value_as_bool, value_as_str,
};

verus! {

/// One decoded transcript event, pushed to the downstream consumer.
pub struct TranscriptPayload {
    pub text: String,
    pub is_final: bool,
}

/// The characters `str::trim` removes: the Unicode white-space set.
pub open spec fn is_ws_char(c: char) -> bool {
    c == '\u{0009}' || c == '\u{000A}' || c == '\u{000B}' || c == '\u{000C}' || c == '\u{000D}'
        || c == '\u{0020}' || c == '\u{0085}' || c == '\u{00A0}' || c == '\u{1680}'
        || c == '\u{2000}' || c == '\u{2001}' || c == '\u{2002}' || c == '\u{2003}'
        || c == '\u{2004}' || c == '\u{2005}' || c == '\u{2006}' || c == '\u{2007}'
        || c == '\u{2008}' || c == '\u{2009}' || c == '\u{200A}' || c == '\u{2028}'
        || c == '\u{2029}' || c == '\u{202F}' || c == '\u{205F}' || c == '\u{3000}'
}

/// A text is blank when every character is white space; trimming such a
/// text leaves it empty.
pub open spec fn is_blank(s: Seq<char>) -> bool {
    forall|i: int| 0 <= i < s.len() ==> is_ws_char(s[i])
}

fn ws_char(c: char) -> (r: bool)
    ensures
        r == is_ws_char(c),
{
    c == '\u{0009}' || c == '\u{000A}' || c == '\u{000B}' || c == '\u{000C}' || c == '\u{000D}'
        || c == '\u{0020}' || c == '\u{0085}' || c == '\u{00A0}' || c == '\u{1680}'
        || c == '\u{2000}' || c == '\u{2001}' || c == '\u{2002}' || c == '\u{2003}'
        || c == '\u{2004}' || c == '\u{2005}' || c == '\u{2006}' || c == '\u{2007}'
        || c == '\u{2008}' || c == '\u{2009}' || c == '\u{200A}' || c == '\u{2028}'
        || c == '\u{2029}' || c == '\u{202F}' || c == '\u{205F}' || c == '\u{3000}'
}

/// Whether trimming leaves the text empty.
pub fn trimmed_empty(s: &str) -> (r: bool)
    ensures
        r == is_blank(s@),
{
    let n = s.unicode_len();
    let mut i: usize = 0;
    while i < n
        invariant
            i <= n,
            n == s@.len(),
            forall|j: int| 0 <= j < i ==> is_ws_char(s@[j]),
        decreases n - i,
    {
        if !ws_char(s.get_char(i)) {
            return false;
        }
        i += 1;
    }
    true
}

/// The finality flag of a message: the `is_final` field when it is a
/// boolean, `false` otherwise.
pub open spec fn spec_is_final(j: JsonModel) -> bool {
    match spec_field(j, "is_final"@) {
        Some(JsonModel::Bool(b)) => b,
        _ => false,
    }
}

/// The transcript text of a message: the string at
/// `channel.alternatives[0].transcript`, empty when any step of the path is
/// absent or of the wrong type.
pub open spec fn spec_transcript(j: JsonModel) -> Seq<char> {
    match spec_field(j, "channel"@) {
        Some(c) => match spec_field(c, "alternatives"@) {
            Some(a) => match spec_element(a, 0) {
                Some(a0) => match spec_field(a0, "transcript"@) {
                    Some(JsonModel::Str(s)) => s,
                    _ => Seq::empty(),
                },
                None => Seq::empty(),
            },
            None => Seq::empty(),
        },
        None => Seq::empty(),
    }
}

/// What a structured frame decodes to: nothing when the text is not valid
/// JSON or the transcript is blank, otherwise the transcript and the
/// finality flag.
pub open spec fn spec_decode(p: Option<JsonModel>) -> Option<(Seq<char>, bool)> {
    match p {
        Some(j) => if is_blank(spec_transcript(j)) {
            None
        } else {
            Some((spec_transcript(j), spec_is_final(j)))
        },
        None => None,
    }
}

/// Decodes one structured frame.
///
/// A malformed frame, and a frame whose transcript is empty or blank,
/// produce no event; any other frame produces exactly the transcript and
/// finality flag that `spec_decode` gives for the parsed document.
pub fn decode_transcript(txt: &str) -> (r: Option<TranscriptPayload>)
    ensures
        match r {
            Some(p) => spec_decode(json_of(txt@)) == Some((p.text@, p.is_final)),
            None => spec_decode(json_of(txt@)) is None,
        },
{
    let parsed = parse_value(txt);
    match parsed {
        None => None,
        Some(v) => {
            let is_final = match get_field(&v, "is_final") {
                Some(f) => match value_as_bool(f) {
                    Some(b) => b,
                    None => false,
                },
                None => false,
            };
            let transcript: &str = match get_field(&v, "channel") {
                Some(c) => match get_field(c, "alternatives") {
                    Some(a) => match get_element(a, 0) {
                        Some(a0) => match get_field(a0, "transcript") {
                            Some(t) => match value_as_str(t) {
                                Some(s) => s,
                                None => "",
                            },
                            None => "",
                        },
                        None => "",
                    },
                    None => "",
                },
                None => "",
            };
            proof {
                reveal_strlit("");
            }
            if trimmed_empty(transcript) {
                None
            } else {
                Some(TranscriptPayload { text: String::from_str(transcript), is_final })
            }
        },
    }
}

} // verus!
