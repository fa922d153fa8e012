use vstd::prelude::*;
use vstd::string::*;
use vstd::utf8::decode_utf8;
use vstd::utf8::valid_utf8;

use crate::json::{
    json_escape, json_plain, json_string_literal, json_unescape, lemma_json_escape_plain,
    lemma_json_escape_round_trip,
};

verus! {

/// The text that `String::from_utf8_lossy` makes of the given bytes.
pub uninterp spec fn utf8_lossy_text(bytes: Seq<u8>) -> Seq<char>;

/// Calls `String::from_utf8_lossy`, which decodes UTF-8 and puts U+FFFD in
/// place of each invalid sequence. Claimed: the result is a function of the
/// bytes alone, and valid UTF-8 is decoded as it is.
#[verifier::external_body]
fn utf8_lossy(bytes: &[u8]) -> (text: String)
    ensures
        text@ == utf8_lossy_text(bytes@),
        valid_utf8(bytes@) ==> text@ == decode_utf8(bytes@),
{
    String::from_utf8_lossy(bytes).into_owned()
}

/// Calls `serde_json::to_string` on a text. Claimed, as serde_json's source
/// shows: serialising a `str` into memory never fails, and the result is the
/// text between double quotes, escaped as `json_escape_char` describes (the
/// escape table and `write_char_escape` of serde_json's serialiser).
#[verifier::external_body]
fn json_string(text: &str) -> (json: String)
    ensures
        json@ == json_string_literal(text@),
{
    serde_json::to_string(text).unwrap()
}

/// The JSON error body for a response body: `{"error": <the body's text as a
/// JSON string>}`.
pub open spec fn error_body_spec(bytes: Seq<u8>) -> Seq<char> {
    "{\"error\": "@ + json_string_literal(utf8_lossy_text(bytes)) + "}"@
}

/// The body an error response with a raw byte body is rewritten to: the
/// JSON error object made of the bytes' text.
pub fn error_body(bytes: &[u8]) -> (json: String)
    ensures
        json@ == error_body_spec(bytes@),
        valid_utf8(bytes@) ==> json@ == "{\"error\": "@ + json_string_literal(decode_utf8(bytes@))
            + "}"@,
        valid_utf8(bytes@) && json_plain(decode_utf8(bytes@)) ==> json@ == "{\"error\": \""@
            + decode_utf8(bytes@) + "\"}"@,
{
    let text = utf8_lossy(bytes);
    let message = json_string(text.as_str());
    let json = String::from_str("{\"error\": ").concat(message.as_str()).concat("}");
    proof {
        if valid_utf8(bytes@) && json_plain(decode_utf8(bytes@)) {
            lemma_json_escape_plain(decode_utf8(bytes@));
            reveal_strlit("{\"error\": ");
            reveal_strlit("}");
            reveal_strlit("{\"error\": \"");
            reveal_strlit("\"}");
            assert(json@ =~= "{\"error\": \""@ + decode_utf8(bytes@) + "\"}"@);
        }
    }
    json
}

/// The error body reads back as the text of the bytes: it is the object
/// `{"error": "<contents>"}` whose string contents decode to exactly the lossy
/// UTF-8 text of the bytes.
pub proof fn lemma_error_body_reads_back(bytes: Seq<u8>)
    ensures
        error_body_spec(bytes) == "{\"error\": \""@ + json_escape(utf8_lossy_text(bytes)) + "\"}"@,
        json_unescape(json_escape(utf8_lossy_text(bytes))) == Some(utf8_lossy_text(bytes)),
{
    reveal_strlit("{\"error\": ");
    reveal_strlit("}");
    reveal_strlit("{\"error\": \"");
    reveal_strlit("\"}");
    lemma_json_escape_round_trip(utf8_lossy_text(bytes));
    assert(error_body_spec(bytes) =~= "{\"error\": \""@ + json_escape(utf8_lossy_text(bytes)) + "\"}"@);
}

} // verus!
