//! Conversation and session identifiers.

use vstd::prelude::*;

use crate::bytes::same_bytes;
use crate::outside::{parsed_uuid, uuid_hyphenated, uuid_parse, uuid_simple};
use crate::text::{hex_text, option_view};

verus! {

/// A universally unique identifier: sixteen bytes.
#[derive(Debug, Clone, Copy, PartialEq, Eq, Hash)]
pub struct Uuid {
    pub bytes: [u8; 16],
}

impl View for Uuid {
    type V = Seq<u8>;

    open spec fn view(&self) -> Seq<u8> {
        self.bytes@
    }
}

/// The hyphenated notation: groups of eight, four, four, four and twelve small digits.
pub open spec fn uuid_text(bytes: Seq<u8>) -> Seq<char> {
    let digits = hex_text(bytes);
    digits.subrange(0, 8) + seq!['-'] + digits.subrange(8, 12) + seq!['-'] + digits.subrange(
        12,
        16,
    ) + seq!['-'] + digits.subrange(16, 20) + seq!['-'] + digits.subrange(20, 32)
}

impl Uuid {
    /// The identifier with the given bytes.
    pub fn from_bytes(bytes: [u8; 16]) -> (id: Uuid)
        ensures
            id@ == bytes@,
    {
        Uuid { bytes }
    }

    /// The identifier whose bytes are all zero.
    pub fn nil() -> (id: Uuid)
        ensures
            id@ == Seq::new(16, |i: int| 0u8),
    {
        let id = Uuid { bytes: [0u8; 16] };
        assert(id@ =~= Seq::new(16, |i: int| 0u8));
        id
    }

    /// The identifier in a slice of sixteen bytes; `None` for any other length.
    pub fn from_slice(bytes: &[u8]) -> (id: Option<Uuid>)
        ensures
            id is Some <==> bytes@.len() == 16,
            id matches Some(u) ==> u@ == bytes@,
    {
        if bytes.len() != 16 {
            return None;
        }
        let mut copy: [u8; 16] = [0u8; 16];
        let mut index: usize = 0;
        while index < 16
            invariant
                index <= 16,
                bytes@.len() == 16,
                forall|i: int| 0 <= i < index ==> copy@[i] == bytes@[i],
            decreases 16 - index,
        {
            copy[index] = bytes[index];
            index = index + 1;
        }
        assert(copy@ =~= bytes@);
        Some(Uuid { bytes: copy })
    }

    /// The sixteen bytes.
    pub fn as_bytes(&self) -> (bytes: &[u8])
        ensures
            bytes@ == self@,
            bytes@.len() == 16,
    {
        self.bytes.as_slice()
    }

    /// Whether two identifiers are the same.
    pub fn same(&self, other: &Uuid) -> (same: bool)
        ensures
            same == (self@ == other@),
    {
        same_bytes(self.as_bytes(), other.as_bytes())
    }

    /// The hyphenated notation.
    pub fn to_text(&self) -> (text: String)
        ensures
            text@ == uuid_text(self@),
    {
        uuid_hyphenated(&self.bytes)
    }

    /// The notation without hyphens.
    pub fn to_simple(&self) -> (text: String)
        ensures
            text@ == hex_text(self@),
    {
        uuid_simple(&self.bytes)
    }

    /// The identifier that a text denotes, in any notation that the `uuid` crate reads.
    pub fn parse_str(text: &str) -> (id: Option<Uuid>)
        ensures
            option_view(id) == parsed_uuid(text@),
            forall|bytes: Seq<u8>|
                bytes.len() == 16 && text@ == #[trigger] uuid_text(bytes) ==> option_view(id)
                    == Some(bytes),
    {
        match uuid_parse(text) {
            Some(bytes) => Some(Uuid { bytes }),
            None => None,
        }
    }
}

/// Law: an identifier is its bytes, and its notation has thirty-six characters: hyphens behind the
/// eighth, twelfth, sixteenth and twentieth digit, and the digits of its bytes in order around them.
pub proof fn law_notation_of_an_identifier(id: Uuid)
    ensures
        id@ == id.bytes@,
        ({
            let text = uuid_text(id.bytes@);
            let digits = hex_text(id.bytes@);
            &&& digits.len() == 32
            &&& text.len() == 36
            &&& text[8] == '-' && text[13] == '-' && text[18] == '-' && text[23] == '-'
            &&& forall|i: int| 0 <= i < 8 ==> text[i] == #[trigger] digits[i]
            &&& forall|i: int| 8 <= i < 12 ==> text[i + 1] == #[trigger] digits[i]
            &&& forall|i: int| 12 <= i < 16 ==> text[i + 2] == #[trigger] digits[i]
            &&& forall|i: int| 16 <= i < 20 ==> text[i + 3] == #[trigger] digits[i]
            &&& forall|i: int| 20 <= i < 32 ==> text[i + 4] == #[trigger] digits[i]
        }),
{
}

} // verus!
