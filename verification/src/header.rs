use vstd::prelude::*;

verus! {

/// A character that may stand in an HTTP header value: a tab, or any
/// character from the space upward except DEL. Characters outside ASCII
/// qualify, since every byte of their UTF-8 encoding is at least 128.
pub open spec fn is_header_value_char(c: char) -> bool {
    (c as u32 >= 32 && c as u32 != 127) || c == '\t'
}

/// Every character of `s` may stand in an HTTP header value.
pub open spec fn is_valid_header_value(s: Seq<char>) -> bool {
    forall|i: int| 0 <= i < s.len() ==> #[trigger] is_header_value_char(s[i])
}

/// Calls `http::HeaderValue::from_str` and reports whether it accepted `s`.
/// That function rejects a string exactly when one of its bytes is below 32
/// (other than a tab) or is 127; this contract restates that over characters.
#[verifier::external_body]
pub(crate) fn header_value_accepts(s: &str) -> (ok: bool)
    ensures
        ok == is_valid_header_value(s@),
{
    http::HeaderValue::from_str(s).is_ok()
}

} // verus!
