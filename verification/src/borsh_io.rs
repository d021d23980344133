//! Trusted boundary: the outside functions this library calls, each with
//! the contract that the library relies on.

use vstd::prelude::*;
use vstd::utf8::{decode_utf8, valid_utf8};

use borsh::BorshDeserialize;

use crate::{ACCOUNT_SPACE, MAX_SPECIAL, NAME};
use crate::lover::{account_bytes, account_model, Lover};

verus! {

/// The text that `String::from_utf8_lossy` produces from `bytes`.
pub uninterp spec fn utf8_lossy(bytes: Seq<u8>) -> Seq<char>;

/// Calls `String::from_utf8_lossy` and takes ownership of its result.
/// Trusted: the result is the named lossy decoding of `bytes`, and, as std
/// documents, a valid UTF-8 slice decodes to exactly the text it encodes.
#[verifier::external_body]
pub(crate) fn lossy_string(bytes: &[u8]) -> (s: String)
    ensures
        s@ == utf8_lossy(bytes@),
        valid_utf8(bytes@) ==> s@ == decode_utf8(bytes@),
{
    String::from_utf8_lossy(bytes).into_owned()
}

/// The text of the error that borsh reports when it cannot read a lover
/// record from `data`: input shorter than a record runs out, input longer
/// than a record has bytes left over.
pub open spec fn borsh_read_error(data: Seq<u8>) -> Seq<char> {
    if data.len() < ACCOUNT_SPACE {
        "Unexpected length of input"@
    } else {
        "Not all bytes read"@
    }
}

/// Reads a record with borsh's `try_from_slice` for the tuple of the three
/// record fields (name bytes, five `u64`, one `u8`), which is the layout
/// borsh gives a struct of those fields. Trusted: borsh reads the 32 name
/// bytes as they are, each number as eight little-endian bytes and the
/// counter as one byte, and fails exactly when the slice is shorter than
/// those 73 bytes or has bytes left over, with the text of borsh's error for
/// each case ("Unexpected length of input", "Not all bytes read"), which is
/// what an `io::Error` made from a message displays.
#[verifier::external_body]
pub(crate) fn borsh_read_lover(data: &[u8]) -> (r: Result<Lover, String>)
    ensures
        r is Ok <==> data@.len() == ACCOUNT_SPACE,
        r matches Ok(l) ==> l@ == account_model(data@),
        r matches Err(m) ==> m@ == borsh_read_error(data@),
{
    match <([u8; NAME], [u64; MAX_SPECIAL], u8)>::try_from_slice(data) {
        Ok((name, special_numbers, love)) => Ok(Lover { name, special_numbers, love }),
        Err(e) => Err(e.to_string()),
    }
}

/// Writes a record with `borsh::to_vec` on the tuple of its three fields.
/// Trusted: borsh writes the name bytes as they are, each number as eight
/// little-endian bytes and then the counter byte, and writing into a `Vec`
/// does not fail.
#[verifier::external_body]
pub(crate) fn borsh_write_lover(lover: &Lover) -> (r: Result<Vec<u8>, String>)
    ensures
        r is Ok,
        r matches Ok(bytes) ==> bytes@ == account_bytes(lover@),
{
    match borsh::to_vec(&(lover.name, lover.special_numbers, lover.love)) {
        Ok(bytes) => Ok(bytes),
        Err(e) => Err(e.to_string()),
    }
}

} // verus!
