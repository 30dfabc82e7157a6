//! Big-endian numbers as byte sequences.

use vstd::prelude::*;

verus! {

/// The big-endian notation of `n` in `width` bytes; what does not fit is cut off at the front.
pub open spec fn be_bytes(n: nat, width: nat) -> Seq<u8>
    decreases width,
{
    if width == 0 {
        Seq::empty()
    } else {
        be_bytes(n / 256, (width - 1) as nat).push((n % 256) as u8)
    }
}

/// The number that a big-endian byte sequence denotes.
pub open spec fn be_value(s: Seq<u8>) -> nat
    decreases s.len(),
{
    if s.len() == 0 {
        0
    } else {
        256 * be_value(s.drop_last()) + s.last() as nat
    }
}

/// The number of values that `width` bytes can hold.
pub open spec fn be_limit(width: nat) -> nat
    decreases width,
{
    if width == 0 {
        1
    } else {
        256 * be_limit((width - 1) as nat)
    }
}

/// The limits of the widths that the formats use.
pub proof fn lemma_be_limits()
    ensures
        be_limit(1) == 0x100,
        be_limit(2) == 0x1_0000,
        be_limit(4) == 0x1_0000_0000,
        be_limit(8) == 0x1_0000_0000_0000_0000,
{
    reveal_with_fuel(be_limit, 9);
}

/// A big-endian notation has as many bytes as were asked for.
pub proof fn lemma_be_bytes_len(n: nat, width: nat)
    ensures
        be_bytes(n, width).len() == width,
    decreases width,
{
    if width > 0 {
        lemma_be_bytes_len(n / 256, (width - 1) as nat);
    }
}

/// A byte sequence denotes a number below the limit of its width.
pub proof fn lemma_be_value_bound(s: Seq<u8>)
    ensures
        be_value(s) < be_limit(s.len()),
    decreases s.len(),
{
    if s.len() > 0 {
        lemma_be_value_bound(s.drop_last());
    }
}

/// Law: a number that fits is read back from its notation.
pub proof fn law_be_round_trip(n: nat, width: nat)
    requires
        n < be_limit(width),
    ensures
        be_value(be_bytes(n, width)) == n,
    decreases width,
{
    if width > 0 {
        let head = be_bytes(n / 256, (width - 1) as nat);
        law_be_round_trip(n / 256, (width - 1) as nat);
        assert(be_bytes(n, width).drop_last() =~= head);
    }
}

/// Law: every byte sequence is the notation of the number that it denotes.
pub proof fn law_be_value_determines_bytes(s: Seq<u8>)
    ensures
        be_bytes(be_value(s), s.len()) == s,
    decreases s.len(),
{
    if s.len() > 0 {
        law_be_value_determines_bytes(s.drop_last());
        let n = be_value(s);
        assert(n / 256 == be_value(s.drop_last()));
        assert(n % 256 == s.last() as nat);
        assert(s.drop_last().push(s.last()) =~= s);
    }
}

/// Appends the big-endian notation of `value` in `width` bytes.
pub fn put_be(output: &mut Vec<u8>, value: u64, width: usize)
    ensures
        final(output)@ == old(output)@ + be_bytes(value as nat, width as nat),
    decreases width,
{
    if width > 0 {
        put_be(output, value / 256, width - 1);
        let ghost head = be_bytes((value / 256) as nat, (width - 1) as nat);
        output.push((value % 256) as u8);
        assert(output@ =~= old(output)@ + head.push((value as nat % 256) as u8));
    } else {
        assert(output@ =~= old(output)@ + be_bytes(value as nat, 0));
    }
}

/// The number that up to eight bytes denote.
pub fn get_be(bytes: &[u8]) -> (value: u64)
    requires
        bytes@.len() <= 8,
    ensures
        value == be_value(bytes@),
{
    let mut value: u64 = 0;
    let mut index: usize = 0;
    while index < bytes.len()
        invariant
            index <= bytes@.len() <= 8,
            value == be_value(bytes@.take(index as int)),
        decreases bytes@.len() - index,
    {
        proof {
            let next = bytes@.take(index as int + 1);
            assert(next.drop_last() =~= bytes@.take(index as int));
            lemma_be_value_bound(next);
            lemma_be_limit_grows(next.len(), 8);
            lemma_be_limits();
        }
        value = value * 256 + bytes[index] as u64;
        index = index + 1;
    }
    assert(bytes@.take(index as int) =~= bytes@);
    value
}

proof fn lemma_be_limit_grows(small: nat, large: nat)
    requires
        small <= large,
    ensures
        be_limit(small) <= be_limit(large),
    decreases large,
{
    if small < large {
        lemma_be_limit_grows(small, (large - 1) as nat);
    }
}

/// Appends a copy of `bytes`.
pub fn put_bytes(output: &mut Vec<u8>, bytes: &[u8])
    ensures
        final(output)@ == old(output)@ + bytes@,
{
    output.extend_from_slice(bytes);
    assert(output@ =~= old(output)@ + bytes@);
}

/// Whether two byte slices hold the same bytes.
pub fn same_bytes(left: &[u8], right: &[u8]) -> (same: bool)
    ensures
        same == (left@ == right@),
{
    if left.len() != right.len() {
        return false;
    }
    let mut index: usize = 0;
    while index < left.len()
        invariant
            index <= left@.len(),
            left@.len() == right@.len(),
            forall|i: int| 0 <= i < index ==> left@[i] == right@[i],
        decreases left@.len() - index,
    {
        if left[index] != right[index] {
            return false;
        }
        index = index + 1;
    }
    assert(left@ =~= right@);
    true
}

/// Law: a byte denotes itself, and bytes with others behind them count 256 times as much for each of
/// those.
pub proof fn law_be_value_is_positional(front: Seq<u8>, byte: u8)
    ensures
        be_value(Seq::<u8>::empty()) == 0,
        be_value(front.push(byte)) == 256 * be_value(front) + byte,
        be_value(seq![byte]) == byte,
{
    assert(front.push(byte).drop_last() =~= front);
    assert(seq![byte].drop_last() =~= Seq::<u8>::empty());
}

/// Law: the last byte of a notation is the number modulo 256, and the bytes before it are the
/// notation of the quotient; there are as many bytes as were asked for.
pub proof fn law_be_bytes_are_positional(n: nat, width: nat)
    ensures
        be_bytes(n, width).len() == width,
        width > 0 ==> be_bytes(n, width).last() == n % 256,
        width > 0 ==> be_bytes(n, width).drop_last() == be_bytes(n / 256, (width - 1) as nat),
{
    lemma_be_bytes_len(n, width);
    if width > 0 {
        assert(be_bytes(n, width).drop_last() =~= be_bytes(n / 256, (width - 1) as nat));
    }
}

} // verus!
