//! Object ids: the twenty raw bytes that name a git object.

use vstd::prelude::*;
use vstd::string::*;
use crate::text::digit;

verus! {

/// Number of bytes in an object id.
pub const OBJECT_ID_LEN: usize = 20;

/// The id of a git object, as its raw bytes.
pub struct ObjectId {
    pub bytes: [u8; 20],
}

impl View for ObjectId {
    type V = Seq<u8>;

    open spec fn view(&self) -> Seq<u8> {
        self.bytes@
    }
}

/// The character that stands for the hexadecimal digit `n`, in lower case.
pub open spec fn hex_digit(n: nat) -> char {
    if n < 10 {
        digit(n)
    } else if n == 10 {
        'a'
    } else if n == 11 {
        'b'
    } else if n == 12 {
        'c'
    } else if n == 13 {
        'd'
    } else if n == 14 {
        'e'
    } else {
        'f'
    }
}

/// Two lower-case hexadecimal digits for each byte, high half first.
pub open spec fn hex_text(bytes: Seq<u8>) -> Seq<char> {
    Seq::new(
        2 * bytes.len(),
        |i: int|
            if i % 2 == 0 {
                hex_digit((bytes[i / 2] / 16) as nat)
            } else {
                hex_digit((bytes[i / 2] % 16) as nat)
            },
    )
}

/// Whether every byte of `bytes` is zero: the null id, which names no object.
pub open spec fn all_zero(bytes: Seq<u8>) -> bool {
    forall|i: int| 0 <= i < bytes.len() ==> bytes[i] == 0
}

/// `git2::Oid::from_bytes` followed by the `Display` of the `git2::Oid` it
/// gives. Twenty bytes are always accepted as an id, and an id is displayed
/// as its forty lower-case hexadecimal digits.
#[verifier::external_body]
fn oid_hex(bytes: &[u8; 20]) -> (text: Option<String>)
    ensures
        text is Some,
        text->0@ == hex_text(bytes@),
{
    match git2::Oid::from_bytes(bytes) {
        Ok(oid) => Some(oid.to_string()),
        Err(_) => None,
    }
}

impl ObjectId {
    /// The null id.
    pub fn zero() -> (id: ObjectId)
        ensures
            id@.len() == 20,
            all_zero(id@),
    {
        ObjectId { bytes: [0u8; 20] }
    }

    /// Reads an id from raw bytes; there must be exactly twenty of them.
    pub fn from_bytes(bytes: &[u8]) -> (id: Option<ObjectId>)
        ensures
            id is Some <==> bytes@.len() == 20,
            id is Some ==> id->0@ == bytes@,
    {
        if bytes.len() != 20 {
            return None;
        }
        let mut raw: [u8; 20] = [0u8; 20];
        let mut i: usize = 0;
        while i < 20
            invariant
                i <= 20,
                bytes@.len() == 20,
                forall|k: int| 0 <= k < i ==> raw@[k] == bytes@[k],
            decreases 20 - i,
        {
            raw[i] = bytes[i];
            i = i + 1;
        }
        assert(raw@ =~= bytes@);
        Some(ObjectId { bytes: raw })
    }

    /// Whether this is the null id.
    pub fn is_zero(&self) -> (zero: bool)
        ensures
            zero == all_zero(self@),
    {
        let mut i: usize = 0;
        while i < 20
            invariant
                i <= 20,
                forall|k: int| 0 <= k < i ==> self.bytes@[k] == 0,
            decreases 20 - i,
        {
            if self.bytes[i] != 0 {
                return false;
            }
            i = i + 1;
        }
        true
    }

    /// The id in hexadecimal: forty lower-case digits.
    pub fn to_hex(&self) -> (text: String)
        ensures
            text@ == hex_text(self@),
            text@.len() == 40,
    {
        match oid_hex(&self.bytes) {
            Some(text) => text,
            None => unreached(),
        }
    }
}

} // verus!
