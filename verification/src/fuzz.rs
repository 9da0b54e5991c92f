//! Helpers of the fuzzing harness for vault decoding.
use vstd::prelude::*;

use crate::text::push_char;

verus! {

/// The prefix of every credential the harness derives.
pub const FUZZ_CREDENTIAL_PREFIX: &'static str = "arca-fuzz-credential";

/// The lowercase hexadecimal digit for `d` below 16.
pub open spec fn hex_digit(d: nat) -> char {
    if d < 10 {
        crate::text::digit_char(d)
    } else if d == 10 {
        'a'
    } else if d == 11 {
        'b'
    } else if d == 12 {
        'c'
    } else if d == 13 {
        'd'
    } else if d == 14 {
        'e'
    } else {
        'f'
    }
}

/// Two lowercase hexadecimal digits per byte.
pub open spec fn hex_text(bytes: Seq<u8>) -> Seq<char>
    decreases bytes.len(),
{
    if bytes.len() == 0 {
        Seq::empty()
    } else {
        hex_text(bytes.drop_last()) + seq![
            hex_digit((bytes.last() / 16) as nat),
            hex_digit((bytes.last() % 16) as nat),
        ]
    }
}

fn hex_char(d: u8) -> (c: char)
    requires
        d < 16,
    ensures
        c == hex_digit(d as nat),
{
    if d == 0 {
        '0'
    } else if d == 1 {
        '1'
    } else if d == 2 {
        '2'
    } else if d == 3 {
        '3'
    } else if d == 4 {
        '4'
    } else if d == 5 {
        '5'
    } else if d == 6 {
        '6'
    } else if d == 7 {
        '7'
    } else if d == 8 {
        '8'
    } else if d == 9 {
        '9'
    } else if d == 10 {
        'a'
    } else if d == 11 {
        'b'
    } else if d == 12 {
        'c'
    } else if d == 13 {
        'd'
    } else if d == 14 {
        'e'
    } else {
        'f'
    }
}

/// A deterministic, non-secret credential from fuzz input: the fixed prefix followed by the
/// first eight bytes in lowercase hexadecimal.
pub fn fuzz_credential(data: &[u8]) -> (r: String)
    ensures
        r@ == FUZZ_CREDENTIAL_PREFIX@ + hex_text(
            data@.take(if data@.len() < 8 {
                data@.len() as int
            } else {
                8
            }),
        ),
{
    let mut credential = String::from_str(FUZZ_CREDENTIAL_PREFIX);
    let n = if data.len() < 8 {
        data.len()
    } else {
        8
    };
    let mut i: usize = 0;
    while i < n
        invariant
            n <= data@.len(),
            i <= n,
            credential@ == FUZZ_CREDENTIAL_PREFIX@ + hex_text(data@.take(i as int)),
        decreases n - i,
    {
        let byte = data[i];
        proof {
            assert(data@.take(i + 1).drop_last() =~= data@.take(i as int));
        }
        push_char(&mut credential, hex_char(byte / 16));
        push_char(&mut credential, hex_char(byte % 16));
        i = i + 1;
    }
    credential
}

} // verus!
