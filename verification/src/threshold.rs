//! The threshold of a key as the service contract takes it: a single byte.

use vstd::prelude::*;
use vstd::string::*;
use crate::text::{decimal_text, push_decimal};

verus! {

/// The largest threshold that the service contract can hold.
pub const MAX_THRESHOLD: usize = 255;

/// The message that reports a threshold too large for the service contract.
pub open spec fn threshold_error_text(threshold: nat) -> Seq<char> {
    "invalid threshold to use in service contract: "@ + decimal_text(threshold)
}

/// Serialize threshold (we only support 256 KS at max).
///
/// A threshold of up to 255 comes back unchanged as a byte. A larger one is
/// rejected with a message that names it.
pub fn serialize_threshold(threshold: usize) -> (result: Result<u8, String>)
    ensures
        threshold <= MAX_THRESHOLD ==> result == Ok::<u8, String>(threshold as u8),
        threshold > MAX_THRESHOLD ==> result is Err && result->Err_0@ == threshold_error_text(
            threshold as nat,
        ),
{
    if threshold > MAX_THRESHOLD {
        return Err(threshold_error(threshold));
    }
    Ok(threshold as u8)
}

/// Writes the message that reports a threshold too large for the service contract.
pub fn threshold_error(threshold: usize) -> (message: String)
    ensures
        message@ == threshold_error_text(threshold as nat),
{
    let mut message = String::from_str("invalid threshold to use in service contract: ");
    push_decimal(&mut message, threshold);
    message
}

} // verus!
