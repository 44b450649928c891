//! The key codec: lowercase hexadecimal tokens for the canonical bytes of a
//! key, and the orders on bytes and on tokens that it preserves.

use vstd::prelude::*;

verus! {

/// The sixteen digits of a token, by value.
pub open spec fn hex_digits() -> Seq<char> {
    seq!['0', '1', '2', '3', '4', '5', '6', '7', '8', '9', 'a', 'b', 'c', 'd', 'e', 'f']
}

/// The digit that stands for a half byte.
pub open spec fn hex_digit(nibble: int) -> char
    recommends
        0 <= nibble < 16,
{
    hex_digits()[nibble]
}

/// The token of a byte sequence: two digits for each byte, the high half
/// first.
pub open spec fn hex(bytes: Seq<u8>) -> Seq<char> {
    Seq::new(
        2 * bytes.len(),
        |i: int|
            if i % 2 == 0 {
                hex_digit(bytes[i / 2] as int / 16)
            } else {
                hex_digit(bytes[i / 2] as int % 16)
            },
    )
}

/// `a` and `b` agree before position `k`, and there `a` ends while `b` goes
/// on, or `a` holds the smaller byte.
pub open spec fn bytes_lt_at(a: Seq<u8>, b: Seq<u8>, k: int) -> bool {
    &&& 0 <= k <= a.len()
    &&& k < b.len()
    &&& forall|i: int| 0 <= i < k ==> a[i] == b[i]
    &&& k < a.len() ==> a[k] < b[k]
}

/// Byte-lexicographic order: the order of canonical key encodings.
pub open spec fn bytes_lt(a: Seq<u8>, b: Seq<u8>) -> bool {
    exists|k: int| bytes_lt_at(a, b, k)
}

/// `a` and `b` agree before position `k`, and there `a` ends while `b` goes
/// on, or `a` holds the character with the smaller code.
pub open spec fn str_lt_at(a: Seq<char>, b: Seq<char>, k: int) -> bool {
    &&& 0 <= k <= a.len()
    &&& k < b.len()
    &&& forall|i: int| 0 <= i < k ==> a[i] == b[i]
    &&& k < a.len() ==> (a[k] as u32) < (b[k] as u32)
}

/// Plain string order: lexicographic by character code.
pub open spec fn str_lt(a: Seq<char>, b: Seq<char>) -> bool {
    exists|k: int| str_lt_at(a, b, k)
}

/// A smaller half byte has the digit with the smaller code.
pub proof fn lemma_hex_digit_monotone(m: int, n: int)
    requires
        0 <= m < n < 16,
    ensures
        (hex_digit(m) as u32) < (hex_digit(n) as u32),
{
}

/// Distinct half bytes have distinct digits.
pub proof fn lemma_hex_digit_injective(m: int, n: int)
    requires
        0 <= m < 16,
        0 <= n < 16,
        hex_digit(m) == hex_digit(n),
    ensures
        m == n,
{
    if m < n {
        lemma_hex_digit_monotone(m, n);
    } else if n < m {
        lemma_hex_digit_monotone(n, m);
    }
}

/// Encoding preserves order: where `a` comes before `b` as bytes, the token
/// of `a` comes before the token of `b` as a plain string.
pub proof fn lemma_hex_preserves_order(a: Seq<u8>, b: Seq<u8>)
    requires
        bytes_lt(a, b),
    ensures
        str_lt(hex(a), hex(b)),
{
    let k = choose|k: int| bytes_lt_at(a, b, k);
    let x = hex(a);
    let y = hex(b);
    assert forall|i: int| 0 <= i < 2 * k implies x[i] == y[i] by {
        assert(a[i / 2] == b[i / 2]);
    }
    if k == a.len() {
        assert(str_lt_at(x, y, 2 * k));
    } else {
        let p = a[k] as int;
        let q = b[k] as int;
        if p / 16 < q / 16 {
            lemma_hex_digit_monotone(p / 16, q / 16);
            assert(str_lt_at(x, y, 2 * k));
        } else {
            assert(p / 16 == q / 16);
            lemma_hex_digit_monotone(p % 16, q % 16);
            assert(x[2 * k] == y[2 * k]);
            assert forall|i: int| 0 <= i < 2 * k + 1 implies x[i] == y[i] by {
                if i < 2 * k {
                    assert(a[i / 2] == b[i / 2]);
                }
            }
            assert(str_lt_at(x, y, 2 * k + 1));
        }
    }
}

/// Encoding loses nothing: byte sequences with the same token are equal.
pub proof fn lemma_hex_injective(a: Seq<u8>, b: Seq<u8>)
    requires
        hex(a) == hex(b),
    ensures
        a == b,
{
    let x = hex(a);
    let y = hex(b);
    assert(2 * a.len() == x.len());
    assert(2 * b.len() == y.len());
    assert forall|j: int| 0 <= j < a.len() implies a[j] == b[j] by {
        let p = a[j] as int;
        let q = b[j] as int;
        assert(x[2 * j] == hex_digit(p / 16));
        assert(y[2 * j] == hex_digit(q / 16));
        assert(x[2 * j + 1] == hex_digit(p % 16));
        assert(y[2 * j + 1] == hex_digit(q % 16));
        lemma_hex_digit_injective(p / 16, q / 16);
        lemma_hex_digit_injective(p % 16, q % 16);
    }
    assert(a =~= b);
}

/// Writes the token of `bytes`: lowercase hexadecimal, two digits a byte.
pub fn encode_hex(bytes: &[u8]) -> (token: String)
    ensures
        token@ == hex(bytes@),
{
    let digits = "0123456789abcdef";
    proof {
        reveal_strlit("0123456789abcdef");
        assert(digits@ =~= hex_digits());
    }
    let mut token = String::new();
    let mut i: usize = 0;
    while i < bytes.len()
        invariant
            i <= bytes.len(),
            digits@ == hex_digits(),
            digits.is_ascii(),
            token@ == hex(bytes@.subrange(0, i as int)),
        decreases bytes.len() - i,
    {
        let byte: u8 = bytes[i];
        let high: usize = (byte / 16) as usize;
        let low: usize = (byte % 16) as usize;
        token.append(digits.substring_ascii(high, high + 1));
        token.append(digits.substring_ascii(low, low + 1));
        i += 1;
        proof {
            assert(token@ =~= hex(bytes@.subrange(0, i as int)));
        }
    }
    proof {
        assert(bytes@.subrange(0, i as int) =~= bytes@);
    }
    token
}

} // verus!
