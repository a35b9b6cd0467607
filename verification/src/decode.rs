//! From the bytes that a socket hands over to the text that the worker reads.

use vstd::prelude::*;
use vstd::utf8::*;

use crate::worker::ReadFailure;

verus! {

/// Whether bytes that are no UTF-8 fail only because they end in the middle
/// of a character, as `std::str::from_utf8` tells it: its error has no
/// `error_len` then.
pub uninterp spec fn cut_short(bytes: Seq<u8>) -> bool;

/// `std::str::from_utf8` checks bytes for UTF-8. The first result is the
/// index up to which the bytes are UTF-8: their length where all of them are,
/// else the `valid_up_to` of the error, the greatest index with UTF-8 before
/// it. The second result tells whether the error has no `error_len`: the
/// bytes then end one to three bytes behind that index, in the middle of a
/// character.
#[verifier::external_body]
fn utf8_extent(bytes: &[u8]) -> (extent: (usize, bool))
    ensures
        extent.0 <= bytes@.len(),
        valid_utf8(bytes@.subrange(0, extent.0 as int)),
        forall|n: int| extent.0 < n <= bytes@.len() ==> !valid_utf8(#[trigger] bytes@.subrange(0, n)),
        extent.1 == (!valid_utf8(bytes@) && cut_short(bytes@)),
        extent.1 ==> bytes@.len() <= extent.0 + 3,
{
    match std::str::from_utf8(bytes) {
        Ok(text) => (text.len(), false),
        Err(error) => (error.valid_up_to(), error.error_len().is_none()),
    }
}

/// `String::from_utf8` makes a string of bytes that are UTF-8, the string
/// that they encode, and fails on all other bytes.
#[verifier::external_body]
fn string_from_utf8(bytes: Vec<u8>) -> (text: Option<String>)
    ensures
        text is Some <==> valid_utf8(bytes@),
        text matches Some(s) ==> s@ == decode_utf8(bytes@),
{
    String::from_utf8(bytes).ok()
}

/// Whether `pending` can be taken as text with something left: all of it is
/// UTF-8, or it fails to be only because it ends in the middle of a
/// character.
pub open spec fn is_text_so_far(pending: Seq<u8>) -> bool {
    valid_utf8(pending) || cut_short(pending)
}

/// The longest start of `pending` that is text, and what is left behind it.
///
/// A character that is not complete yet stays behind, for the bytes that
/// come next; bytes that can be no text fail.
pub fn take_text(pending: Vec<u8>) -> (taken: Result<(String, Vec<u8>), ReadFailure>)
    ensures
        taken is Ok <==> is_text_so_far(pending@),
        taken matches Ok((text, rest)) ==> {
            &&& encode_utf8(text@) + rest@ == pending@
            &&& rest@.len() <= 3
            &&& forall|n: int|
                encode_utf8(text@).len() < n <= pending@.len() ==> !valid_utf8(
                    #[trigger] pending@.subrange(0, n),
                )
        },
        taken matches Err(failure) ==> failure == ReadFailure::Other,
{
    let (valid, incomplete) = utf8_extent(pending.as_slice());
    assert(pending@.subrange(0, pending@.len() as int) == pending@);
    if valid < pending.len() && !incomplete {
        return Err(ReadFailure::Other);
    }
    let mut bytes = pending;
    let rest = bytes.split_off(valid);
    let ghost start = bytes@;
    match string_from_utf8(bytes) {
        Some(text) => {
            proof {
                decode_utf8_encode_utf8(start);
                assert(start + rest@ =~= pending@);
            }
            Ok((text, rest))
        },
        None => Err(ReadFailure::Other),
    }
}

} // verus!
