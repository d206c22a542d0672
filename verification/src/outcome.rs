//! The result translator: converts the raw dual-stream outcome of running
//! the external tool into the structured two-channel result, handling decode
//! failure and non-zero status.

use vstd::prelude::*;
use vstd::utf8::decode_utf8;
use vstd::utf8::valid_utf8;
use crate::request::CurlResult;
use crate::text::join_spaces;
use crate::text::join_with_spaces;
use crate::text::trim_blank;
use crate::text::trimmed;

verus! {

/// The raw outcome of one run of the external tool: the exit or host error
/// code (zero means success), the host's own error text, and the two
/// captured byte streams.
pub struct RawOutcome {
    pub ret_code: i32,
    pub error: String,
    pub stdout: Vec<u8>,
    pub stderr: Vec<u8>,
}

/// Relies on String::from_utf8: it returns the decoded string exactly when
/// the bytes are valid UTF-8, and an error otherwise.
#[verifier::external_body]
fn bytes_to_string(v: Vec<u8>) -> (r: Option<String>)
    ensures
        match r {
            Some(s) => valid_utf8(v@) && s@ == decode_utf8(v@),
            None => !valid_utf8(v@),
        },
{
    String::from_utf8(v).ok()
}

/// The error text reported when a captured stream is not valid text.
pub open spec fn non_utf8_text() -> Seq<char> {
    "stdout or stderr contains non valid UTF8 string"@
}

/// The error text reported when the tool ran but failed: the space-joined
/// argument list for diagnosability, then the tool's own failure text.
pub open spec fn process_failure_text(
    args: Seq<String>,
    host_error: Seq<char>,
    stderr_text: Seq<char>,
) -> Seq<char> {
    "curl cli call failed\n"@ + join_spaces(args) + ": error: "@ + host_error + ", stderr: "@
        + stderr_text
}

/// Converts a raw execution outcome into the structured result:
/// - a stream that does not decode as text fails with the non-UTF-8 error;
/// - a decoded failure reports the argument list and the tool's failure text;
/// - a decoded success carries the whitespace-trimmed output as the payload.
pub fn translate_outcome(outcome: RawOutcome, args: &Vec<String>) -> (r: CurlResult)
    ensures
        outcome.ret_code == 0 && valid_utf8(outcome.stdout@) ==> {
            &&& r.success
            &&& r.payload@ == trimmed(decode_utf8(outcome.stdout@))
            &&& r.error@.len() == 0
        },
        outcome.ret_code == 0 && !valid_utf8(outcome.stdout@) ==> {
            &&& !r.success
            &&& r.payload@.len() == 0
            &&& r.error@ == non_utf8_text()
        },
        outcome.ret_code != 0 && valid_utf8(outcome.stderr@) ==> {
            &&& !r.success
            &&& r.payload@.len() == 0
            &&& r.error@ == process_failure_text(
                args@,
                outcome.error@,
                decode_utf8(outcome.stderr@),
            )
        },
        outcome.ret_code != 0 && !valid_utf8(outcome.stderr@) ==> {
            &&& !r.success
            &&& r.payload@.len() == 0
            &&& r.error@ == non_utf8_text()
        },
{
    if outcome.ret_code == 0 {
        match bytes_to_string(outcome.stdout) {
            Some(text) => CurlResult {
                success: true,
                payload: trim_blank(text.as_str()),
                error: String::new(),
            },
            None => non_utf8_result(),
        }
    } else {
        match bytes_to_string(outcome.stderr) {
            Some(text) => {
                let mut msg = String::from_str("curl cli call failed\n");
                let joined = join_with_spaces(args);
                msg.append(joined.as_str());
                msg.append(": error: ");
                msg.append(outcome.error.as_str());
                msg.append(", stderr: ");
                msg.append(text.as_str());
                CurlResult { success: false, payload: String::new(), error: msg }
            },
            None => non_utf8_result(),
        }
    }
}

fn non_utf8_result() -> (r: CurlResult)
    ensures
        !r.success,
        r.payload@.len() == 0,
        r.error@ == non_utf8_text(),
{
    CurlResult {
        success: false,
        payload: String::new(),
        error: String::from_str("stdout or stderr contains non valid UTF8 string"),
    }
}

} // verus!
