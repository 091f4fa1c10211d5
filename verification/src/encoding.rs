//! Lowercase hexadecimal text for octets.

use vstd::prelude::*;

verus! {

/// The lowercase hexadecimal digit for a value from 0 to 15.
pub open spec fn hex_digit(nibble: int) -> char {
    if nibble < 10 {
        ('0' as int + nibble) as char
    } else {
        ('a' as int + (nibble - 10)) as char
    }
}

/// Two digits for each octet, the high half first: `[0x0f, 0xa0]` reads `0fa0`.
pub open spec fn hex_lower(bytes: Seq<u8>) -> Seq<char> {
    Seq::new(
        2 * bytes.len(),
        |i: int|
            if i % 2 == 0 {
                hex_digit(bytes[i / 2] as int / 16)
            } else {
                hex_digit(bytes[i / 2] as int % 16)
            },
    )
}

/// Encodes `data` with `hex::encode`.
///
/// Trusted, not proved: that the text holds, for each octet in turn, the
/// lowercase digit of its high half and then that of its low half, and
/// nothing else.
#[verifier::external_body]
pub(crate) fn hex_text(data: &[u8]) -> (text: String)
    ensures
        text@ == hex_lower(data@),
{
    ::hex::encode(data)
}

/// The digits `'0'..='9'` and `'a'..='f'`.
pub open spec fn is_lower_hex(c: char) -> bool {
    ('0' <= c && c <= '9') || ('a' <= c && c <= 'f')
}

/// Hexadecimal text is twice as long as what it encodes and made of
/// lowercase hexadecimal digits only.
pub proof fn lemma_hex_lower_shape(bytes: Seq<u8>)
    ensures
        hex_lower(bytes).len() == 2 * bytes.len(),
        forall|i: int| 0 <= i < hex_lower(bytes).len() ==> is_lower_hex(#[trigger] hex_lower(bytes)[i]),
{
    assert forall|i: int| 0 <= i < hex_lower(bytes).len() implies is_lower_hex(
        #[trigger] hex_lower(bytes)[i],
    ) by {
        let b = bytes[i / 2] as int;
        assert(0 <= b / 16 < 16 && 0 <= b % 16 < 16);
    }
}

/// A digit tells its value.
proof fn lemma_hex_digit_injective(m: int, n: int)
    requires
        0 <= m < 16,
        0 <= n < 16,
        hex_digit(m) == hex_digit(n),
    ensures
        m == n,
{
}

/// Two octet strings with the same hexadecimal text are the same.
pub proof fn lemma_hex_lower_injective(left: Seq<u8>, right: Seq<u8>)
    requires
        hex_lower(left) == hex_lower(right),
    ensures
        left == right,
{
    assert(hex_lower(left).len() == 2 * left.len());
    assert(hex_lower(right).len() == 2 * right.len());
    assert(left.len() == right.len());
    assert forall|k: int| 0 <= k < left.len() implies left[k] == right[k] by {
        let l = left[k] as int;
        let r = right[k] as int;
        assert((2 * k) / 2 == k && (2 * k) % 2 == 0);
        assert((2 * k + 1) / 2 == k && (2 * k + 1) % 2 == 1);
        assert(hex_lower(left)[2 * k] == hex_digit(l / 16));
        assert(hex_lower(right)[2 * k] == hex_digit(r / 16));
        assert(hex_lower(left)[2 * k + 1] == hex_digit(l % 16));
        assert(hex_lower(right)[2 * k + 1] == hex_digit(r % 16));
        lemma_hex_digit_injective(l / 16, r / 16);
        lemma_hex_digit_injective(l % 16, r % 16);
    }
    assert(left =~= right);
}

} // verus!
