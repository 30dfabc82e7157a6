//! Bytes written as text: the base64 and base32 alphabets.

use vstd::arithmetic::power2::{lemma_pow2_pos, pow2};
use vstd::prelude::*;

use crate::text::is_space;

verus! {

/// The number that `width` bits denote, from bit `at` on; beyond the end all bits are zero.
pub open spec fn bit_group(bytes: Seq<u8>, at: int, width: nat) -> int {
    let high = bytes[at / 8] as int;
    let low = if at / 8 + 1 < bytes.len() {
        bytes[at / 8 + 1] as int
    } else {
        0
    };
    ((256 * high + low) / pow2((16 - at % 8 - width) as nat) as int) % pow2(width) as int
}

/// The base64 digit of a number below sixty-four.
pub open spec fn base64_digit(value: int) -> char {
    if value < 26 {
        ('A' as u32 + value) as char
    } else if value < 52 {
        ('a' as u32 + value - 26) as char
    } else if value < 62 {
        ('0' as u32 + value - 52) as char
    } else if value == 62 {
        '+'
    } else {
        '/'
    }
}

/// The base64 notation of a byte sequence: one digit for six bits, padded to groups of four.
pub open spec fn base64_text(bytes: Seq<u8>) -> Seq<char> {
    Seq::new(
        4 * ((bytes.len() + 2) / 3),
        |i: int|
            if 6 * i < 8 * bytes.len() {
                base64_digit(bit_group(bytes, 6 * i, 6))
            } else {
                '='
            },
    )
}

/// The base32 digit of a number below thirty-two.
pub open spec fn base32_digit(value: int) -> char {
    if value < 26 {
        ('A' as u32 + value) as char
    } else {
        ('2' as u32 + value - 26) as char
    }
}

/// The base32 notation of a byte sequence, without padding: one digit for five bits.
pub open spec fn base32_text(bytes: Seq<u8>) -> Seq<char> {
    Seq::new((8 * bytes.len() + 4) / 5, |i: int| base32_digit(bit_group(bytes, 5 * i, 5)))
}

proof fn lemma_bit_group_bound(bytes: Seq<u8>, at: int, width: nat)
    ensures
        0 <= bit_group(bytes, at, width) < pow2(width),
{
    lemma_pow2_pos(width);
}

/// The base64 notation holds no white space.
pub proof fn lemma_base64_has_no_space(bytes: Seq<u8>)
    ensures
        forall|i: int|
            0 <= i < base64_text(bytes).len() ==> !is_space(#[trigger] base64_text(bytes)[i]),
{
    assert forall|i: int| 0 <= i < base64_text(bytes).len() implies !is_space(
        #[trigger] base64_text(bytes)[i],
    ) by {
        lemma_bit_group_bound(bytes, 6 * i, 6);
    }
}

/// The digits of base32 are letters and the digits from two to seven.
pub proof fn lemma_base32_digits(bytes: Seq<u8>)
    ensures
        forall|i: int|
            0 <= i < base32_text(bytes).len() ==> {
                let c = #[trigger] base32_text(bytes)[i];
                'A' <= c <= 'Z' || '2' <= c <= '7'
            },
{
    assert(pow2(5) == 32) by {
        vstd::arithmetic::power2::lemma2_to64();
    }
    assert forall|i: int| 0 <= i < base32_text(bytes).len() implies {
        let c = #[trigger] base32_text(bytes)[i];
        'A' <= c <= 'Z' || '2' <= c <= '7'
    } by {
        lemma_bit_group_bound(bytes, 5 * i, 5);
    }
}

/// Law: three bytes become four base64 digits, six bits each, from the highest bit on.
pub proof fn law_three_bytes_become_four_digits(bytes: Seq<u8>, group: int)
    requires
        0 <= group && 3 * group + 3 <= bytes.len(),
    ensures
        ({
            let text = base64_text(bytes);
            let first = bytes[3 * group] as int;
            let second = bytes[3 * group + 1] as int;
            let third = bytes[3 * group + 2] as int;
            &&& text[4 * group] == base64_digit(first / 4)
            &&& text[4 * group + 1] == base64_digit(first % 4 * 16 + second / 16)
            &&& text[4 * group + 2] == base64_digit(second % 16 * 4 + third / 64)
            &&& text[4 * group + 3] == base64_digit(third % 64)
        }),
{
    vstd::arithmetic::power2::lemma2_to64();
    let first = bytes[3 * group] as int;
    let second = bytes[3 * group + 1] as int;
    let third = bytes[3 * group + 2] as int;
    assert(bit_group(bytes, 24 * group, 6) == first / 4) by {
        assert((24 * group) / 8 == 3 * group && (24 * group) % 8 == 0);
        assert((256 * first + second) / 1024 == first / 4);
        assert(pow2(10) == 1024 && pow2(6) == 64);
    }
    assert(bit_group(bytes, 24 * group + 6, 6) == first % 4 * 16 + second / 16) by {
        assert((24 * group + 6) / 8 == 3 * group && (24 * group + 6) % 8 == 6);
        assert((256 * first + second) / 16 == 16 * first + second / 16);
        assert(16 * first == 64 * (first / 4) + 16 * (first % 4));
        assert(pow2(4) == 16 && pow2(6) == 64);
    }
    assert(bit_group(bytes, 24 * group + 12, 6) == second % 16 * 4 + third / 64) by {
        assert((24 * group + 12) / 8 == 3 * group + 1 && (24 * group + 12) % 8 == 4);
        assert((256 * second + third) / 64 == 4 * second + third / 64);
        assert(4 * second == 64 * (second / 16) + 4 * (second % 16));
        assert(pow2(6) == 64);
    }
    assert(bit_group(bytes, 24 * group + 18, 6) == third % 64) by {
        let low = if 3 * group + 3 < bytes.len() {
            bytes[3 * group + 3] as int
        } else {
            0
        };
        assert((24 * group + 18) / 8 == 3 * group + 2 && (24 * group + 18) % 8 == 2);
        assert((256 * third + low) / 256 == third);
        assert(pow2(8) == 256 && pow2(6) == 64);
    }
}

/// Law: the digits of base64 are the letters, large before small, the decimal digits, plus and
/// slash; those of base32 are the large letters and the digits from two on.
pub proof fn law_alphabets(value: int)
    requires
        0 <= value < 64,
    ensures
        value < 26 ==> base64_digit(value) as int == 'A' as int + value,
        26 <= value < 52 ==> base64_digit(value) as int == 'a' as int + (value - 26),
        52 <= value < 62 ==> base64_digit(value) as int == '0' as int + (value - 52),
        value == 62 ==> base64_digit(value) == '+',
        value == 63 ==> base64_digit(value) == '/',
        value < 26 ==> base32_digit(value) as int == 'A' as int + value,
        26 <= value < 32 ==> base32_digit(value) as int == '2' as int + (value - 26),
{
}

} // verus!
