//! How far a tape archive can be walked.
//!
//! A member of a tape archive starts with a header block. A sparse member may go on with extension
//! blocks, by which the position of the next member is moved on. Where such a member declares 2^63
//! bytes or more, by its header or by an extended record before it, that position may leave the
//! range of `u64`.

use vstd::prelude::*;

use crate::bytes::same_bytes;

verus! {

/// Whether the block at a position is the header of a sparse member in GNU format that goes on
/// with an extension block.
pub open spec fn is_extended_sparse(tape: Seq<u8>, at: int) -> bool {
    &&& tape[at + 156] == 0x53
    &&& tape.subrange(at + 257, at + 265) == seq![
        0x75u8,
        0x73u8,
        0x74u8,
        0x61u8,
        0x72u8,
        0x20u8,
        0x20u8,
        0u8,
    ]
    &&& tape[at + 482] == 1
}

/// Whether the header block at a position declares 2^63 bytes or more. Only a size in binary can
/// be that large: its mark is the highest bit of the field, its value the last eight bytes.
pub open spec fn has_wide_size(tape: Seq<u8>, at: int) -> bool {
    tape[at + 124] >= 0x80 && tape[at + 128] >= 0x80
}

/// Whether a byte can stand in a decimal number.
pub open spec fn is_sign_or_digit(byte: u8) -> bool {
    byte == 0x2b || 0x30 <= byte <= 0x39
}

/// Whether an extended record for a size stands at a position, with so many digits that the size
/// may be 2^63 or more.
pub open spec fn is_long_size(tape: Seq<u8>, at: int) -> bool {
    &&& tape.subrange(at, at + 6) == seq![0x20u8, 0x73u8, 0x69u8, 0x7au8, 0x65u8, 0x3du8]
    &&& forall|i: int| at + 6 <= i < at + 25 ==> is_sign_or_digit(#[trigger] tape[i])
}

/// Whether an extended record for such a size stands before a position.
pub open spec fn has_long_size_before(tape: Seq<u8>, at: int) -> bool {
    exists|from: int| 0 <= from && from + 25 <= at && #[trigger] is_long_size(tape, from)
}

/// Whether the extension blocks of a member at a position may move the next position out of range.
pub open spec fn may_overflow(tape: Seq<u8>, at: int) -> bool {
    &&& 0 <= at
    &&& at % 512 == 0
    &&& at + 1024 <= tape.len()
    &&& is_extended_sparse(tape, at)
    &&& has_wide_size(tape, at) || has_long_size_before(tape, at)
}

/// Whether so many bytes of a tape archive can be walked: no header in them that may move the next
/// position out of range is followed by an extension block.
pub open spec fn is_walkable(tape: Seq<u8>, limit: int) -> bool {
    forall|at: int| at + 1024 <= limit ==> !#[trigger] may_overflow(tape, at)
}

/// The first header, from a position on, that may move the next position out of range.
pub open spec fn first_overflow(tape: Seq<u8>, from: int) -> Option<int>
    decreases tape.len() - from,
{
    if from + 1024 > tape.len() {
        None
    } else if may_overflow(tape, from) {
        Some(from)
    } else {
        first_overflow(tape, from + 512)
    }
}

/// How many bytes of a tape archive are walked: all, or those up to the end of the first header
/// that may move the next position out of range.
pub open spec fn walk_limit(tape: Seq<u8>) -> int {
    match first_overflow(tape, 0) {
        Some(at) => at + 512,
        None => u64::MAX as int,
    }
}

fn stands_long_size(tape: &[u8], at: usize) -> (found: bool)
    requires
        at + 25 <= tape@.len(),
    ensures
        found == is_long_size(tape@, at as int),
{
    let wanted: [u8; 6] = [0x20u8, 0x73u8, 0x69u8, 0x7au8, 0x65u8, 0x3du8];
    assert(wanted@ =~= seq![0x20u8, 0x73u8, 0x69u8, 0x7au8, 0x65u8, 0x3du8]);
    let length: usize = tape.len();
    if !same_bytes(&tape[at..at + 6], wanted.as_slice()) {
        return false;
    }
    let mut index: usize = 6;
    while index < 25
        invariant
            length == tape@.len(),
            6 <= index <= 25,
            at + 25 <= tape@.len(),
            forall|i: int| at + 6 <= i < at + index ==> is_sign_or_digit(#[trigger] tape@[i]),
        decreases 25 - index,
    {
        let byte: u8 = tape[at + index];
        if byte != 0x2b && !(0x30 <= byte && byte <= 0x39) {
            assert(!is_sign_or_digit(tape@[at + index]));
            return false;
        }
        index = index + 1;
    }
    true
}

/// Whether the first extended record for a long size ends at a position, or there is none.
spec fn is_first_long_size(tape: Seq<u8>, end: Option<usize>) -> bool {
    match end {
        Some(end) => {
            &&& 25 <= end <= tape.len()
            &&& is_long_size(tape, end - 25)
            &&& forall|from: int| 0 <= from < end - 25 ==> !#[trigger] is_long_size(tape, from)
        },
        None => forall|from: int|
            0 <= from && from + 25 <= tape.len() ==> !#[trigger] is_long_size(tape, from),
    }
}

/// The end of the first extended record for a long size.
fn first_long_size(tape: &[u8]) -> (end: Option<usize>)
    ensures
        is_first_long_size(tape@, end),
{
    let mut from: usize = 0;
    while tape.len() >= 25 && from <= tape.len() - 25
        invariant
            from == 0 || from + 24 <= tape@.len(),
            forall|i: int| 0 <= i < from ==> !#[trigger] is_long_size(tape@, i),
        decreases tape@.len() - from,
    {
        if stands_long_size(tape, from) {
            return Some(from + 25);
        }
        from = from + 1;
    }
    None
}

fn stands_overflow(tape: &[u8], at: usize, long_size: Option<usize>) -> (found: bool)
    requires
        at % 512 == 0,
        at + 1024 <= tape@.len(),
        is_first_long_size(tape@, long_size),
    ensures
        found == may_overflow(tape@, at as int),
{
    let magic: [u8; 8] = [0x75u8, 0x73u8, 0x74u8, 0x61u8, 0x72u8, 0x20u8, 0x20u8, 0u8];
    assert(magic@ =~= seq![0x75u8, 0x73u8, 0x74u8, 0x61u8, 0x72u8, 0x20u8, 0x20u8, 0u8]);
    let sparse = tape[at + 156] == 0x53 && same_bytes(&tape[at + 257..at + 265], magic.as_slice())
        && tape[at + 482] == 1;
    let wide = tape[at + 124] >= 0x80 && tape[at + 128] >= 0x80;
    let long = match long_size {
        Some(end) => end <= at,
        None => false,
    };
    assert(long == has_long_size_before(tape@, at as int)) by {
        if long {
            assert(is_long_size(tape@, long_size->0 - 25));
        }
    }
    sparse && (wide || long)
}

/// How many bytes of a tape archive are walked.
pub fn safe_length(tape: &[u8]) -> (limit: u64)
    ensures
        limit == walk_limit(tape@),
        is_walkable(tape@, limit as int),
{
    let long_size = first_long_size(tape);
    let mut at: usize = 0;
    while tape.len() >= 1024 && at <= tape.len() - 1024
        invariant
            at % 512 == 0,
            at == 0 || at + 512 <= tape@.len(),
            first_overflow(tape@, 0) == first_overflow(tape@, at as int),
            forall|i: int| i < at ==> !#[trigger] may_overflow(tape@, i),
            is_first_long_size(tape@, long_size),
        decreases tape@.len() - at,
    {
        if stands_overflow(tape, at, long_size) {
            return at as u64 + 512;
        }
        assert forall|i: int| i < at + 512 implies !#[trigger] may_overflow(tape@, i) by {
            if at < i {
                assert(i % 512 != 0);
            }
        }
        at = at + 512;
    }
    u64::MAX
}

/// Law: a tape archive is walked whole, unless a header may move the next position out of range.
pub proof fn law_harmless_tapes_are_walked_whole(tape: Seq<u8>)
    requires
        forall|at: int| !#[trigger] may_overflow(tape, at),
    ensures
        walk_limit(tape) == u64::MAX,
{
    lemma_no_overflow(tape, 0);
}

proof fn lemma_no_overflow(tape: Seq<u8>, from: int)
    requires
        forall|at: int| !#[trigger] may_overflow(tape, at),
    ensures
        first_overflow(tape, from) is None,
    decreases tape.len() - from,
{
    if from + 1024 <= tape.len() {
        lemma_no_overflow(tape, from + 512);
    }
}

/// Law: a header may move the next position out of range exactly where it stands at a multiple of
/// 512 with a whole block behind it, is that of an extended sparse member of GNU format, and declares
/// a size of 2^63 or more, or follows a record that may.
pub proof fn law_headers_that_may_overflow(tape: Seq<u8>, at: int)
    ensures
        may_overflow(tape, at) <==> {
            &&& 0 <= at && at % 512 == 0 && at + 1024 <= tape.len()
            &&& tape[at + 156] == 'S' as u8 && tape[at + 482] == 1
            &&& tape[at + 257] == 'u' as u8 && tape[at + 258] == 's' as u8 && tape[at + 259]
                == 't' as u8 && tape[at + 260] == 'a' as u8 && tape[at + 261] == 'r' as u8
            &&& tape[at + 262] == ' ' as u8 && tape[at + 263] == ' ' as u8 && tape[at + 264] == 0
            &&& tape[at + 124] >= 128 && tape[at + 128] >= 128 || has_long_size_before(tape, at)
        },
{
    let wanted = seq![0x75u8, 0x73u8, 0x74u8, 0x61u8, 0x72u8, 0x20u8, 0x20u8, 0u8];
    if 0 <= at && at + 1024 <= tape.len() {
        let magic = tape.subrange(at + 257, at + 265);
        assert(magic[0] == tape[at + 257] && magic[1] == tape[at + 258] && magic[2] == tape[at
            + 259] && magic[3] == tape[at + 260] && magic[4] == tape[at + 261] && magic[5]
            == tape[at + 262] && magic[6] == tape[at + 263] && magic[7] == tape[at + 264]);
        if tape[at + 257] == 0x75 && tape[at + 258] == 0x73 && tape[at + 259] == 0x74 && tape[at
            + 260] == 0x61 && tape[at + 261] == 0x72 && tape[at + 262] == 0x20 && tape[at + 263]
            == 0x20 && tape[at + 264] == 0 {
            assert(magic =~= wanted);
        }
        if magic == wanted {
            assert(wanted[0] == 0x75 && wanted[7] == 0);
        }
    }
}

/// Law: a record for a long size is ` size=` and nineteen digits or plus signs, and counts for every
/// header from its end on.
pub proof fn law_records_of_long_sizes(tape: Seq<u8>, from: int, at: int)
    requires
        0 <= from && from + 25 <= at && from + 25 <= tape.len(),
        tape[from] == ' ' as u8 && tape[from + 1] == 's' as u8 && tape[from + 2] == 'i' as u8
            && tape[from + 3] == 'z' as u8 && tape[from + 4] == 'e' as u8 && tape[from + 5]
            == '=' as u8,
        forall|i: int|
            from + 6 <= i < from + 25 ==> ('0' as u8 <= #[trigger] tape[i] <= '9' as u8 || tape[i]
                == '+' as u8),
    ensures
        has_long_size_before(tape, at),
{
    assert(tape.subrange(from, from + 6) =~= seq![
        0x20u8,
        0x73u8,
        0x69u8,
        0x7au8,
        0x65u8,
        0x3du8,
    ]);
    assert(is_long_size(tape, from));
}

/// Law: where a header may move the next position out of range, the tape is walked to the end of the
/// first one of these and no further.
pub proof fn law_walks_end_at_the_first_overflow(tape: Seq<u8>, at: int)
    requires
        may_overflow(tape, at),
        forall|before: int| before < at ==> !#[trigger] may_overflow(tape, before),
    ensures
        walk_limit(tape) == at + 512,
{
    lemma_first_overflow(tape, 0, at);
}

proof fn lemma_first_overflow(tape: Seq<u8>, from: int, at: int)
    requires
        0 <= from <= at,
        from % 512 == 0,
        may_overflow(tape, at),
        forall|before: int| before < at ==> !#[trigger] may_overflow(tape, before),
    ensures
        first_overflow(tape, from) == Some(at),
    decreases at - from,
{
    if from < at {
        lemma_first_overflow(tape, from + 512, at);
    }
}

} // verus!
