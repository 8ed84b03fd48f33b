//! What a node sends for a block, and the timestamp in it.
//!
//! A block comes as a JSON object whose `timestamp` member is a text: `0x`
//! and the unix time in hexadecimal digits. `serde_json` reads the JSON;
//! what the text means is decided here.

use vstd::prelude::*;
use vstd::string::StrSliceExecFns;
use crate::text::{numeral, read_numeral};

verus! {

/// The text that the member `key` of a JSON object holds, as `serde_json`
/// reads the document; `None` where the document is no JSON, no object,
/// has no such member, or holds something other than a text there.
pub uninterp spec fn json_text_field(document: Seq<char>, key: Seq<char>) -> Option<Seq<char>>;

/// Calls `serde_json::from_str` for a `serde_json::Value`, then
/// `Value::get` with the key and `Value::as_str` on the member. The
/// contract only names the text that comes out.
#[verifier::external_body]
pub(crate) fn text_field(document: &str, key: &str) -> (text: Option<String>)
    ensures
        text is Some <==> json_text_field(document@, key@) is Some,
        text is Some ==> text->0@ == json_text_field(document@, key@)->0,
{
    let value: serde_json::Value = serde_json::from_str(document).ok()?;
    Some(value.get(key)?.as_str()?.to_owned())
}

/// The number that a hexadecimal quantity denotes: `0x`, then one or more
/// hexadecimal digits of either case, of a value that fits 64 bits.
/// Anything else is no quantity.
pub open spec fn hex_quantity(text: Seq<char>) -> Option<u64> {
    if text.len() >= 2 && text[0] == '0' && text[1] == 'x' {
        match numeral(text.subrange(2, text.len() as int), 16, u64::MAX as nat) {
            Some(value) => Some(value as u64),
            None => None,
        }
    } else {
        None
    }
}

/// The timestamp that a block's JSON gives, if it gives one.
pub open spec fn timestamp_in(block_json: Seq<char>) -> Option<u64> {
    match json_text_field(block_json, "timestamp"@) {
        Some(text) => hex_quantity(text),
        None => None,
    }
}

/// Reads a hexadecimal quantity.
pub fn parse_hex_quantity(text: &str) -> (value: Option<u64>)
    ensures
        value == hex_quantity(text@),
{
    let n: usize = text.unicode_len();
    if n < 2 {
        return None;
    }
    if text.get_char(0) != '0' || text.get_char(1) != 'x' {
        return None;
    }
    read_numeral(text, 2, 16, u64::MAX)
}

/// The timestamp of a block from the JSON that the node sent for it, as
/// an answer to hand to the oracle or the search. A payload without a
/// well-formed timestamp, such as the `null` that stands for a block that
/// does not exist, is a failure of the node.
pub fn block_timestamp(block_json: &str) -> (reply: Result<u64, String>)
    ensures
        match reply {
            Ok(stamp) => timestamp_in(block_json@) == Some(stamp),
            Err(cause) => timestamp_in(block_json@) is None && cause@
                == "malformed block payload"@,
        },
{
    let stamp: Option<u64> = match text_field(block_json, "timestamp") {
        Some(text) => parse_hex_quantity(text.as_str()),
        None => None,
    };
    match stamp {
        Some(stamp) => Ok(stamp),
        None => Err("malformed block payload".to_owned()),
    }
}

} // verus!
