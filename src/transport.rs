use vstd::prelude::*;

use reqwest::header::{HeaderValue, InvalidHeaderValue};

use crate::error::Error;

verus! {

/// Declared so that header values can be built and handed back to the caller.
#[verifier::external_type_specification]
#[verifier::external_body]
pub struct ExHeaderValue(HeaderValue);

#[verifier::external_type_specification]
#[verifier::external_body]
pub struct ExInvalidHeaderValue(InvalidHeaderValue);

/// A character that may stand in a header value. Characters outside ASCII are
/// encoded as bytes of 128 and above, which are all allowed.
pub open spec fn header_char_ok(c: char) -> bool {
    c == '\t' || (32 <= c as u32 && c as u32 != 127)
}

pub open spec fn spec_valid_header_text(s: Seq<char>) -> bool {
    forall|i: int| 0 <= i < s.len() ==> header_char_ok(#[trigger] s[i])
}

/// Relies on `HeaderValue::from_str` of the http crate: it accepts the text
/// exactly when every byte is a tab, or at least 32 and not 127.
pub assume_specification[ HeaderValue::from_str ](src: &str) -> (r: Result<
    HeaderValue,
    InvalidHeaderValue,
>)
    ensures
        r is Ok <==> spec_valid_header_text(src@),
;

/// Relies on `HeaderValue::set_sensitive` of the http crate, which only sets the flag
/// that keeps the value out of debug output and compression tables.
pub assume_specification[ HeaderValue::set_sensitive ](v: &mut HeaderValue, val: bool);

/// The credential header for `api_key`, marked sensitive. Fails, before any
/// request is made, when the key holds a character a header cannot carry.
pub fn api_header(api_key: &str) -> (r: Result<HeaderValue, Error>)
    ensures
        r is Ok <==> spec_valid_header_text(api_key@),
        r is Err ==> r->Err_0 is InvalidCredential,
{
    match HeaderValue::from_str(api_key) {
        Ok(mut header) => {
            header.set_sensitive(true);
            Ok(header)
        },
        Err(_) => Err(Error::InvalidCredential),
    }
}

} // verus!
