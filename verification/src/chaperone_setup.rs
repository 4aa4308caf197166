//! What the chaperone setup hands over as text.

use crate::c_string::{is_nul_terminated, nul_terminated};
use vstd::prelude::*;

verus! {

/// The text of an export of the live setup, terminator included. The
/// runtime was given the buffer `data` to fill and `success` is what it
/// reported. There is a text where it reports success and the buffer holds a
/// string with its terminator and nothing else; there is none otherwise.
pub fn exported(success: bool, data: Vec<u8>) -> (text: Option<Vec<u8>>)
    ensures
        text is Some <==> success && nul_terminated(data@),
        text matches Some(bytes) ==> bytes@ == data@,
{
    if success && is_nul_terminated(data.as_slice()) {
        Some(data)
    } else {
        None
    }
}

} // verus!
