//! Hardware-address text parsing: turns exporter-reported text such as
//! `aa:bb:cc:dd:ee:ff` into its 48-bit integer encoding. Colons are
//! separators and may stand anywhere; the remaining bytes must be one to
//! sixteen hexadecimal digits. The all-zero value is the sentinel for an
//! unknown hardware address.

use vstd::prelude::*;

verus! {

/// The colon separator byte `:`.
pub const COLON: u8 = 58;

/// Whether `b` is an ASCII hexadecimal digit.
pub open spec fn is_hex_digit(b: u8) -> bool {
    (48 <= b <= 57) || (65 <= b <= 70) || (97 <= b <= 102)
}

/// The numeric value of the ASCII hexadecimal digit `b`.
pub open spec fn hex_digit_value(b: u8) -> nat
    recommends
        is_hex_digit(b),
{
    if 48 <= b <= 57 {
        (b - 48) as nat
    } else if 65 <= b <= 70 {
        (b - 55) as nat
    } else {
        (b - 87) as nat
    }
}

/// The bytes of `s` that are not colon separators, in order.
pub open spec fn digits_of(s: Seq<u8>) -> Seq<u8>
    decreases s.len(),
{
    if s.len() == 0 {
        Seq::empty()
    } else if s.last() == COLON {
        digits_of(s.drop_last())
    } else {
        digits_of(s.drop_last()).push(s.last())
    }
}

/// Whether every byte of `s` is a hexadecimal digit.
pub open spec fn all_hex(s: Seq<u8>) -> bool {
    forall|i: int| 0 <= i < s.len() ==> is_hex_digit(s[i])
}

/// The value of the big-endian hexadecimal digit string `s`.
pub open spec fn hex_value(s: Seq<u8>) -> nat
    decreases s.len(),
{
    if s.len() == 0 {
        0
    } else {
        hex_value(s.drop_last()) * 16 + hex_digit_value(s.last())
    }
}

/// Sixteen to the power `n`.
pub open spec fn pow16(n: nat) -> nat
    decreases n,
{
    if n == 0 {
        1
    } else {
        16 * pow16((n - 1) as nat)
    }
}

/// The hardware address encoded by the text `s`: the value of its digits
/// once colons are dropped, or `None` when a byte is neither a colon nor a
/// hexadecimal digit, no digit is left, or more than sixteen digits are.
pub open spec fn mac_of_text(s: Seq<u8>) -> Option<u64> {
    let d = digits_of(s);
    if 1 <= d.len() <= 16 && all_hex(d) {
        Some(hex_value(d) as u64)
    } else {
        None
    }
}

/// A digit string's value is below sixteen to its length.
proof fn lemma_hex_value_bound(s: Seq<u8>)
    requires
        all_hex(s),
    ensures
        hex_value(s) < pow16(s.len()),
    decreases s.len(),
{
    if s.len() == 0 {
    } else {
        lemma_hex_value_bound(s.drop_last());
        assert(hex_digit_value(s.last()) < 16);
        assert(hex_value(s.drop_last()) * 16 + 16 <= pow16((s.len() - 1) as nat) * 16)
            by (nonlinear_arith)
            requires
                hex_value(s.drop_last()) < pow16((s.len() - 1) as nat),
        ;
    }
}

/// `pow16` does not shrink as the exponent grows.
proof fn lemma_pow16_mono(a: nat, b: nat)
    requires
        a <= b,
    ensures
        pow16(a) <= pow16(b),
    decreases b,
{
    if a < b {
        lemma_pow16_mono(a, (b - 1) as nat);
        assert(pow16(b) == 16 * pow16((b - 1) as nat));
        assert(pow16((b - 1) as nat) >= 1) by {
            lemma_pow16_mono(0, (b - 1) as nat);
        }
    }
}

/// Sixteen to the sixteenth is two to the sixty-fourth.
proof fn lemma_pow16_sixteen()
    ensures
        pow16(16) == 0x1_0000_0000_0000_0000,
{
    reveal_with_fuel(pow16, 17);
}

/// Dropping one element from the end never lengthens the digit string.
proof fn lemma_digits_prefix_len(s: Seq<u8>, i: int)
    requires
        0 <= i <= s.len(),
    ensures
        digits_of(s.take(i)).len() <= digits_of(s).len(),
    decreases s.len() - i,
{
    if i == s.len() {
        assert(s.take(i) =~= s);
    } else {
        lemma_digits_prefix_len(s, i + 1);
        assert(s.take(i + 1).drop_last() =~= s.take(i));
    }
}

/// A non-colon byte of the text stays in its digit string.
proof fn lemma_digits_contain(s: Seq<u8>, i: int)
    requires
        0 <= i < s.len(),
        s[i] != COLON,
    ensures
        exists|j: int| 0 <= j < digits_of(s).len() && digits_of(s)[j] == s[i],
    decreases s.len(),
{
    if i == s.len() - 1 {
        assert(digits_of(s).last() == s[i]);
    } else {
        lemma_digits_contain(s.drop_last(), i);
        let j = choose|j: int|
            0 <= j < digits_of(s.drop_last()).len() && digits_of(s.drop_last())[j]
                == s.drop_last()[i];
        assert(digits_of(s)[j] == s[i]);
    }
}

/// Parses hardware-address text to its integer encoding, returning `None`
/// exactly when the text encodes no address.
pub fn parse_mac(text: &[u8]) -> (r: Option<u64>)
    ensures
        r == mac_of_text(text@),
{
    let n: usize = text.len();
    let mut acc: u64 = 0;
    let mut count: usize = 0;
    let mut i: usize = 0;
    while i < n
        invariant
            n == text@.len(),
            0 <= i <= n,
            count == digits_of(text@.take(i as int)).len(),
            count <= 16,
            all_hex(digits_of(text@.take(i as int))),
            acc == hex_value(digits_of(text@.take(i as int))),
        decreases n - i,
    {
        let b = text[i];
        proof {
            assert(text@.take(i + 1).drop_last() =~= text@.take(i as int));
            assert(text@.take(i + 1).last() == text@[i as int]);
        }
        if b == COLON {
            // separator: the digit string is unchanged
        } else {
            let dv: u8 = if 48 <= b && b <= 57 {
                b - 48
            } else if 65 <= b && b <= 70 {
                b - 55
            } else if 97 <= b && b <= 102 {
                b - 87
            } else {
                proof {
                    lemma_digits_contain(text@, i as int);
                }
                return None;
            };
            if count == 16 {
                proof {
                    lemma_digits_prefix_len(text@, i + 1);
                }
                return None;
            }
            proof {
                lemma_hex_value_bound(digits_of(text@.take(i as int)));
                lemma_pow16_mono(count as nat, 15);
                lemma_pow16_sixteen();
                reveal_with_fuel(pow16, 2);
                assert(pow16(15) * 16 == pow16(16));
                let d = digits_of(text@.take(i as int));
                let d2 = digits_of(text@.take(i + 1));
                assert(d2 == d.push(b));
                assert(d2.drop_last() =~= d);
                assert(d2.last() == b);
                assert(hex_value(d2) == hex_value(d) * 16 + hex_digit_value(b));
            }
            acc = acc * 16 + (dv as u64);
            count = count + 1;
        }
        i = i + 1;
    }
    proof {
        assert(text@.take(n as int) =~= text@);
    }
    if count == 0 {
        None
    } else {
        proof {
            lemma_hex_value_bound(digits_of(text@));
            lemma_pow16_mono(count as nat, 16);
            lemma_pow16_sixteen();
        }
        Some(acc)
    }
}

} // verus!
