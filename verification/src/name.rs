//! Fixed-size, zero-padded names.

use vstd::prelude::*;
use vstd::string::StringSliceAdditionalSpecFns;
use vstd::utf8::{decode_utf8, encode_utf8, encode_utf8_decode_utf8, encode_utf8_valid_utf8, valid_utf8};

use crate::NAME;
use crate::borsh_io::{lossy_string, utf8_lossy};

verus! {

/// The name field that holds `bytes`: its first `NAME` bytes, padded with
/// zeros up to `NAME`.
pub open spec fn padded_name(bytes: Seq<u8>) -> Seq<u8> {
    Seq::new(NAME as nat, |i: int| if i < bytes.len() { bytes[i] } else { 0u8 })
}

/// Length of the name stored in a name field: the index of its first zero
/// byte, or the whole field when it holds none.
pub open spec fn stored_name_len(field: Seq<u8>) -> int
    decreases field.len(),
{
    if field.len() == 0 {
        0
    } else if field[0] == 0 {
        0
    } else {
        1 + stored_name_len(field.drop_first())
    }
}

/// The bytes of the name stored in a name field.
pub open spec fn stored_name(field: Seq<u8>) -> Seq<u8> {
    field.take(stored_name_len(field))
}

proof fn lemma_stored_name_len(field: Seq<u8>, i: int)
    requires
        0 <= i <= field.len(),
        forall|j: int| 0 <= j < i ==> field[j] != 0,
        i == field.len() || field[i] == 0,
    ensures
        stored_name_len(field) == i,
    decreases i,
{
    if i > 0 {
        lemma_stored_name_len(field.drop_first(), i - 1);
    }
}

/// A name field holds exactly `NAME` bytes: the given bytes first, then
/// zeros; bytes past `NAME` are dropped.
pub proof fn lemma_padded_name(bytes: Seq<u8>)
    ensures
        padded_name(bytes).len() == NAME,
        forall|i: int| 0 <= i < NAME && i < bytes.len() ==> padded_name(bytes)[i] == bytes[i],
        forall|i: int| bytes.len() <= i < NAME ==> padded_name(bytes)[i] == 0,
{
}

/// A name survives being stored: for text whose UTF-8 encoding fits in
/// `NAME` bytes and holds no zero byte, the name read back from the field
/// that `string_to_u8` fills is exactly the encoding, which is valid UTF-8
/// and decodes to the text, so `u8_to_string` gives the text back.
pub proof fn lemma_name_roundtrip(text: Seq<char>)
    requires
        encode_utf8(text).len() <= NAME,
        !encode_utf8(text).contains(0u8),
    ensures
        stored_name(padded_name(encode_utf8(text))) == encode_utf8(text),
        valid_utf8(stored_name(padded_name(encode_utf8(text)))),
        decode_utf8(stored_name(padded_name(encode_utf8(text)))) == text,
{
    broadcast use encode_utf8_valid_utf8, encode_utf8_decode_utf8;

    let bytes = encode_utf8(text);
    let field = padded_name(bytes);
    assert forall|j: int| 0 <= j < bytes.len() implies field[j] != 0 by {
        if field[j] == 0 {
            assert(bytes[j] == 0u8);
            assert(bytes.contains(0u8));
        }
    }
    lemma_stored_name_len(field, bytes.len() as int);
    assert(stored_name(field) =~= bytes);
}

/// Packs a string into a name field: its UTF-8 bytes, cut after `NAME`
/// bytes and padded with zeros.
pub fn string_to_u8(data: &str) -> (word: [u8; NAME])
    ensures
        word@ == padded_name(data.spec_bytes()),
{
    let bytes = data.as_bytes();
    let mut word = [0u8; NAME];
    let len: usize = if bytes.len() < NAME { bytes.len() } else { NAME };
    let mut i: usize = 0;
    while i < len
        invariant
            len <= NAME,
            len <= bytes@.len(),
            len == bytes@.len() || len == NAME,
            bytes@ == data.spec_bytes(),
            i <= len,
            forall|j: int| 0 <= j < i ==> word@[j] == bytes@[j],
            forall|j: int| i <= j < NAME ==> word@[j] == 0,
        decreases len - i,
    {
        word[i] = bytes[i];
        i = i + 1;
    }
    assert(word@ =~= padded_name(data.spec_bytes()));
    word
}

/// Reads the name stored in a name field: the bytes before the first zero
/// (or all of them), decoded as UTF-8 with invalid sequences replaced.
pub fn u8_to_string(data: [u8; NAME]) -> (s: String)
    ensures
        s@ == utf8_lossy(stored_name(data@)),
        valid_utf8(stored_name(data@)) ==> s@ == decode_utf8(stored_name(data@)),
{
    let mut len: usize = 0;
    while len < NAME && data[len] != 0
        invariant
            len <= NAME,
            forall|j: int| 0 <= j < len ==> data@[j] != 0,
        decreases NAME - len,
    {
        len = len + 1;
    }
    proof {
        lemma_stored_name_len(data@, len as int);
    }
    let slice = data.as_slice();
    let mut prefix: Vec<u8> = Vec::new();
    let mut i: usize = 0;
    while i < len
        invariant
            len <= NAME,
            slice@ == data@,
            i <= len,
            prefix@ == data@.take(i as int),
        decreases len - i,
    {
        prefix.push(slice[i]);
        i = i + 1;
        assert(prefix@ =~= data@.take(i as int));
    }
    lossy_string(prefix.as_slice())
}

} // verus!
