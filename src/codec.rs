//! URL-safe base64, as the `base64` crate implements it.

use vstd::prelude::*;

verus! {

/// Declares `base64::DecodeError`, why text is not valid base64.
#[verifier::external_type_specification]
#[verifier::external_body]
pub struct ExDecodeError(base64::DecodeError);

/// The bytes that URL-safe base64 text `s` decodes to, or `None` where it is
/// not valid base64.
pub uninterp spec fn url_safe_decoding(s: Seq<char>) -> Option<Seq<u8>>;

/// The URL-safe base64 digit for a six-bit value: `A-Z`, `a-z`, `0-9`, `-`, `_`.
pub open spec fn url_safe_digit(v: int) -> char {
    if v < 26 {
        (65 + v) as char
    } else if v < 52 {
        (97 + v - 26) as char
    } else if v < 62 {
        (48 + v - 52) as char
    } else if v == 62 {
        '-'
    } else {
        '_'
    }
}

/// The padded URL-safe base64 text of `b`: four digits for each three bytes,
/// and a final group of one or two bytes padded with `=` to four characters.
pub open spec fn url_safe_encoding(b: Seq<u8>) -> Seq<char>
    decreases b.len(),
{
    let b0 = if b.len() > 0 { b[0] as int } else { 0 };
    let b1 = if b.len() > 1 { b[1] as int } else { 0 };
    let b2 = if b.len() > 2 { b[2] as int } else { 0 };
    if b.len() == 0 {
        seq![]
    } else if b.len() == 1 {
        seq![url_safe_digit(b0 / 4), url_safe_digit((b0 % 4) * 16), '=', '=']
    } else if b.len() == 2 {
        seq![
            url_safe_digit(b0 / 4),
            url_safe_digit((b0 % 4) * 16 + b1 / 16),
            url_safe_digit((b1 % 16) * 4),
            '=',
        ]
    } else {
        seq![
            url_safe_digit(b0 / 4),
            url_safe_digit((b0 % 4) * 16 + b1 / 16),
            url_safe_digit((b1 % 16) * 4 + b2 / 64),
            url_safe_digit(b2 % 64),
        ] + url_safe_encoding(b.subrange(3, b.len() as int))
    }
}

/// A character that padded URL-safe base64 text may hold.
pub open spec fn is_url_safe_char(c: char) -> bool {
    ('A' <= c && c <= 'Z') || ('a' <= c && c <= 'z') || ('0' <= c && c <= '9') || c == '-'
        || c == '_' || c == '='
}

/// Padded URL-safe base64 text holds only `A-Z`, `a-z`, `0-9`, `-`, `_` and
/// `=`, so it never holds a path separator or a dot.
pub proof fn lemma_url_safe_charset(b: Seq<u8>)
    ensures
        forall|i: int|
            0 <= i < url_safe_encoding(b).len() ==> is_url_safe_char(
                #[trigger] url_safe_encoding(b)[i],
            ),
    decreases b.len(),
{
    if b.len() >= 3 {
        let rest = b.subrange(3, b.len() as int);
        lemma_url_safe_charset(rest);
        let head = url_safe_encoding(b).take(4);
        assert(url_safe_encoding(b) =~= head + url_safe_encoding(rest));
        assert forall|i: int| 0 <= i < url_safe_encoding(b).len() implies is_url_safe_char(
            #[trigger] url_safe_encoding(b)[i],
        ) by {
            if i >= 4 {
                assert(url_safe_encoding(b)[i] == url_safe_encoding(rest)[i - 4]);
            }
        }
    }
}

/// Relies on `base64::decode_config` with `base64::URL_SAFE`: the decoded
/// bytes, or the error where the text is not valid base64. Its one panic, on an
/// input length within 3 of `usize::MAX`, cannot occur: std bounds a `String`'s
/// length by `isize::MAX`.
#[verifier::external_body]
pub(crate) fn decode_url_safe(s: &String) -> (r: Result<Vec<u8>, base64::DecodeError>)
    ensures
        r is Ok <==> url_safe_decoding(s@) is Some,
        r is Ok ==> url_safe_decoding(s@) == Some(r->Ok_0@),
{
    base64::decode_config(s, base64::URL_SAFE)
}

/// Relies on `base64::encode_config` with `base64::URL_SAFE`, which panics
/// only where the encoded length overflows `usize`.
#[verifier::external_body]
pub(crate) fn encode_url_safe(b: &Vec<u8>) -> (r: String)
    requires
        b@.len() <= usize::MAX / 2,
    ensures
        r@ == url_safe_encoding(b@),
{
    base64::encode_config(b, base64::URL_SAFE)
}

} // verus!

verus! {

/// Relies on `<base64::DecodeError as Display>::fmt`: a description of the error.
#[verifier::external_body]
pub(crate) fn decode_error_text(e: &base64::DecodeError) -> String {
    format!("{}", e)
}

} // verus!
