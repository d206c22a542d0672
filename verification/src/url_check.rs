//! The URL validator: the SSRF/local-access guard. Only `http` and `https`
//! destinations pass; every other scheme — notably `file` — is rejected
//! before any argument list is built.

use vstd::prelude::*;
use crate::request::ValidationError;
use crate::text::str_starts_with;

verus! {

/// Whether `url` names an allowed destination: it begins with `http://` or
/// `https://` and something follows the scheme prefix.
pub open spec fn url_allowed(url: Seq<char>) -> bool {
    ||| (url.len() > "http://"@.len() && url.subrange(0, "http://"@.len() as int) == "http://"@)
    ||| (url.len() > "https://"@.len() && url.subrange(0, "https://"@.len() as int)
        == "https://"@)
}

/// An allowed URL always begins with the letter `h` of its scheme.
pub proof fn lemma_allowed_url_head(url: Seq<char>)
    requires
        url_allowed(url),
    ensures
        url.len() > 0,
        url[0] == 'h',
{
    reveal_strlit("http://");
    reveal_strlit("https://");
    if url.len() > "http://"@.len() && url.subrange(0, "http://"@.len() as int) == "http://"@ {
        assert(url.subrange(0, "http://"@.len() as int)[0] == url[0]);
    } else {
        assert(url.subrange(0, "https://"@.len() as int)[0] == url[0]);
    }
}

/// Accepts `url` unchanged when its scheme is in the allow-list and a host
/// part follows; rejects every other string with `InvalidUrl`. This check
/// runs unconditionally before any argument is built.
pub fn validate_url(url: &str) -> (r: Result<String, ValidationError>)
    ensures
        match r {
            Ok(u) => url_allowed(url@) && u@ == url@,
            Err(e) => !url_allowed(url@) && e == ValidationError::InvalidUrl,
        },
{
    let plain = "http://";
    let tls = "https://";
    if str_starts_with(url, plain) && url.unicode_len() > plain.unicode_len() {
        Ok(String::from_str(url))
    } else if str_starts_with(url, tls) && url.unicode_len() > tls.unicode_len() {
        Ok(String::from_str(url))
    } else {
        Err(ValidationError::InvalidUrl)
    }
}

} // verus!
