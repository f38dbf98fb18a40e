//! Payment hashes: their textual form and their 32 bytes.

use vstd::prelude::*;

verus! {

pub open spec fn is_hex_digit(c: char) -> bool {
    '0' <= c <= '9' || 'a' <= c <= 'f' || 'A' <= c <= 'F'
}

/// The value of a hexadecimal digit, in either case.
pub open spec fn hex_digit(c: char) -> int {
    if '0' <= c <= '9' {
        c as int - '0' as int
    } else if 'a' <= c <= 'f' {
        c as int - 'a' as int + 10
    } else {
        c as int - 'A' as int + 10
    }
}

/// Whole bytes in hexadecimal: an even number of digits and nothing else.
pub open spec fn is_hex(text: Seq<char>) -> bool {
    &&& text.len() % 2 == 0
    &&& forall|i: int| 0 <= i < text.len() ==> is_hex_digit(#[trigger] text[i])
}

/// The bytes that a hexadecimal text stands for, two digits each, the high one first.
pub open spec fn hex_bytes(text: Seq<char>) -> Seq<u8> {
    Seq::new(
        text.len() / 2,
        |i: int| (16 * hex_digit(text[2 * i]) + hex_digit(text[2 * i + 1])) as u8,
    )
}

/// A payment hash in hexadecimal: 32 bytes.
pub open spec fn is_payment_hash_text(text: Seq<char>) -> bool {
    is_hex(text) && text.len() == 64
}

/// Calls `hex::decode`, which reads digits of both cases and refuses a text of odd length or
/// with any other character.
#[verifier::external_body]
fn decode_hex(text: &str) -> (bytes: Option<Vec<u8>>)
    ensures
        bytes is Some <==> is_hex(text@),
        bytes matches Some(b) ==> b@ == hex_bytes(text@),
{
    hex::decode(text).ok()
}

/// The 32 bytes of a payment hash, from its hexadecimal form: `None` for a text that is not
/// hexadecimal or stands for another number of bytes.
pub fn payment_hash_from_hex(text: &str) -> (hash: Option<[u8; 32]>)
    ensures
        hash is Some <==> is_payment_hash_text(text@),
        hash matches Some(h) ==> h@ == hex_bytes(text@),
{
    match decode_hex(text) {
        None => None,
        Some(bytes) => {
            if bytes.len() != 32 {
                return None;
            }
            let mut hash: [u8; 32] = [0; 32];
            let mut i: usize = 0;
            while i < 32
                invariant
                    i <= 32,
                    bytes@.len() == 32,
                    hash@.len() == 32,
                    forall|j: int| 0 <= j < i ==> hash@[j] == bytes@[j],
                decreases 32 - i,
            {
                hash[i] = bytes[i];
                i = i + 1;
            }
            assert(hash@ =~= bytes@);
            Some(hash)
        },
    }
}

} // verus!
