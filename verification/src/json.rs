//! JSON rendering of a speech request.
//!
//! The endpoint takes the record as a JSON object with camel-case keys.
//! The encoding is specified character by character: string values are
//! emitted between double quotes, with `"` and `\` escaped by a backslash
//! and control characters as `\u00XX`; every other character passes
//! through unchanged. Absent optional fields are emitted as `null`.

use vstd::prelude::*;
use vstd::string::StrSliceExecFns;
use vstd::string::StringExecFns;

use crate::record::{SpeechRequestView, TTSMessageData};

verus! {

/// The sixteen lowercase hexadecimal digit characters, in value order.
pub open spec fn spec_hex_digits() -> Seq<char> {
    "0123456789abcdef"@
}

/// The hexadecimal digit character for a value below sixteen.
pub open spec fn spec_hex_char(d: int) -> char {
    spec_hex_digits()[d]
}

/// How one character of a string value is emitted.
pub open spec fn spec_escape_char(c: char) -> Seq<char> {
    if c == '"' {
        seq!['\\', '"']
    } else if c == '\\' {
        seq!['\\', '\\']
    } else if (c as u32) < 0x20 {
        seq!['\\', 'u', '0', '0', spec_hex_char((c as u32) as int / 16), spec_hex_char(
            (c as u32) as int % 16,
        )]
    } else {
        seq![c]
    }
}

/// A whole string value, escaped character by character.
pub open spec fn spec_escape(s: Seq<char>) -> Seq<char>
    decreases s.len(),
{
    if s.len() == 0 {
        Seq::<char>::empty()
    } else {
        spec_escape(s.drop_last()) + spec_escape_char(s.last())
    }
}

/// A JSON string literal: the escaped value between double quotes.
pub open spec fn spec_json_string(s: Seq<char>) -> Seq<char> {
    seq!['"'] + spec_escape(s) + seq!['"']
}

/// An optional JSON string: `null` where the value is absent.
pub open spec fn spec_json_opt_string(s: Option<Seq<char>>) -> Seq<char> {
    match s {
        Option::Some(inner) => spec_json_string(inner),
        Option::None => "null"@,
    }
}

/// The whole speech request as one JSON object, fields in a fixed order
/// under their camel-case keys.
pub open spec fn spec_json_record(v: SpeechRequestView) -> Seq<char> {
    "{\"guildId\":"@ + spec_json_opt_string(v.guild_id) + ",\"channelId\":"@ + spec_json_string(
        v.channel_id,
    ) + ",\"userId\":"@ + spec_json_string(v.user_id) + ",\"username\":"@ + spec_json_string(
        v.username,
    ) + ",\"displayName\":"@ + spec_json_string(v.display_name) + ",\"messageContent\":"@
        + spec_json_string(v.message_content) + ",\"timestamp\":"@ + spec_json_string(v.timestamp)
        + ",\"messageId\":"@ + spec_json_string(v.message_id) + ",\"voice\":"@
        + spec_json_opt_string(v.voice) + "}"@
}

/// The hexadecimal digit character for `d`, as a one-character slice.
fn hex_char_str(d: usize) -> (r: &'static str)
    requires
        d < 16,
    ensures
        r@ =~= seq![spec_hex_char(d as int)],
{
    let digits = "0123456789abcdef";
    proof {
        reveal_strlit("0123456789abcdef");
    }
    digits.substring_char(d, d + 1)
}

/// Appends the escaped form of `s` to `out`.
fn append_escaped(out: &mut String, s: &String)
    ensures
        final (out)@ == old(out)@ + spec_escape(s@),
{
    let n = s.as_str().unicode_len();
    let mut i: usize = 0;
    while i < n
        invariant
            i <= n,
            n == s@.len(),
            out@ == old(out)@ + spec_escape(s@.subrange(0, i as int)),
        decreases n - i,
    {
        let c = s.as_str().get_char(i);
        if c == '"' {
            out.append("\\\"");
            proof {
                reveal_strlit("\\\"");
                assert("\\\""@ =~= spec_escape_char(c));
            }
        } else if c == '\\' {
            out.append("\\\\");
            proof {
                reveal_strlit("\\\\");
                assert("\\\\"@ =~= spec_escape_char(c));
            }
        } else {
            let v = c as u32;
            if v < 0x20 {
                out.append("\\u00");
                out.append(hex_char_str((v / 16) as usize));
                out.append(hex_char_str((v % 16) as usize));
                proof {
                    reveal_strlit("\\u00");
                    assert("\\u00"@ + seq![spec_hex_char(v as int / 16)] + seq![
                        spec_hex_char(v as int % 16),
                    ] =~= spec_escape_char(c));
                }
            } else {
                let piece = s.as_str().substring_char(i, i + 1);
                out.append(piece);
                proof {
                    assert(piece@ =~= seq![c]);
                    assert(seq![c] =~= spec_escape_char(c));
                }
            }
        }
        proof {
            let pre = s@.subrange(0, i as int);
            let ext = s@.subrange(0, i + 1 as int);
            assert(ext.drop_last() =~= pre);
            assert(ext.last() == s@[i as int]);
            assert(out@ =~= old(out)@ + spec_escape(ext));
        }
        i = i + 1;
    }
    proof {
        assert(s@.subrange(0, n as int) =~= s@);
    }
}

/// Appends the JSON string literal for `s` to `out`.
fn append_json_string(out: &mut String, s: &String)
    ensures
        final (out)@ == old(out)@ + spec_json_string(s@),
{
    out.append("\"");
    proof {
        reveal_strlit("\"");
    }
    append_escaped(out, s);
    out.append("\"");
    proof {
        assert(out@ =~= old(out)@ + spec_json_string(s@));
    }
}

/// Appends the optional JSON string for `s` to `out` (`null` if absent).
fn append_json_opt_string(out: &mut String, s: &Option<String>)
    ensures
        final (out)@ == old(out)@ + spec_json_opt_string(s.deep_view()),
{
    match s {
        Option::Some(inner) => {
            append_json_string(out, inner);
        },
        Option::None => {
            out.append("null");
        },
    }
}

impl TTSMessageData {
    /// Renders the record as the JSON object the endpoint expects.
    pub fn to_json(&self) -> (r: String)
        ensures
            r@ == spec_json_record(self@),
    {
        let mut out = String::new();
        out.append("{\"guildId\":");
        proof {
            assert(out@ =~= "{\"guildId\":"@);
        }
        append_json_opt_string(&mut out, &self.guild_id);
        out.append(",\"channelId\":");
        append_json_string(&mut out, &self.channel_id);
        out.append(",\"userId\":");
        append_json_string(&mut out, &self.user_id);
        out.append(",\"username\":");
        append_json_string(&mut out, &self.username);
        out.append(",\"displayName\":");
        append_json_string(&mut out, &self.display_name);
        out.append(",\"messageContent\":");
        append_json_string(&mut out, &self.message_content);
        out.append(",\"timestamp\":");
        append_json_string(&mut out, &self.timestamp);
        out.append(",\"messageId\":");
        append_json_string(&mut out, &self.message_id);
        out.append(",\"voice\":");
        append_json_opt_string(&mut out, &self.voice);
        out.append("}");
        out
    }
}

} // verus!
