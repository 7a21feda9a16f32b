//! Small text builders: decimal and lowercase-hex renderings, and string
//! equality, each with an exact character-level specification.

use vstd::prelude::*;
use vstd::string::StringSliceAdditionalSpecFns;

verus! {

/// The ASCII digit for `d` (`0 <= d < 10`).
pub open spec fn digit_char(d: int) -> char {
    (48 + d) as char
}

/// The lowercase hexadecimal digit for `d` (`0 <= d < 16`).
pub open spec fn hex_char(d: int) -> char {
    if d < 10 {
        (48 + d) as char
    } else {
        (87 + d) as char
    }
}

/// The base-10 rendering of `n`, most significant digit first, no leading zeros.
pub open spec fn decimal(n: nat) -> Seq<char>
    decreases n,
{
    if n < 10 {
        seq![digit_char(n as int)]
    } else {
        decimal(n / 10).push(digit_char((n % 10) as int))
    }
}

/// Two lowercase hex digits per byte, high nibble first.
pub open spec fn hex_lower_chars(bytes: Seq<u8>) -> Seq<char>
    decreases bytes.len(),
{
    if bytes.len() == 0 {
        Seq::empty()
    } else {
        hex_lower_chars(bytes.drop_last()) + seq![
            hex_char((bytes.last() / 16) as int),
            hex_char((bytes.last() % 16) as int),
        ]
    }
}

fn hex_digit_str(d: u8) -> (s: &'static str)
    requires
        d < 16,
    ensures
        s@ == seq![hex_char(d as int)],
{
    let table = "0123456789abcdef";
    proof {
        reveal_strlit("0123456789abcdef");
    }
    let s = table.substring_char(d as usize, d as usize + 1);
    assert(s@ =~= seq![hex_char(d as int)]);
    s
}

/// The decimal rendering of `n`.
pub fn decimal_string(n: usize) -> (s: String)
    ensures
        s@ == decimal(n as nat),
    decreases n,
{
    if n < 10 {
        String::from_str(hex_digit_str(n as u8))
    } else {
        let mut s = decimal_string(n / 10);
        s.append(hex_digit_str((n % 10) as u8));
        s
    }
}

/// Lowercase hex encoding of `bytes`: two characters per byte.
pub fn hex_lower(bytes: &[u8]) -> (s: String)
    ensures
        s@ == hex_lower_chars(bytes@),
{
    let mut s = String::new();
    let mut i: usize = 0;
    while i < bytes.len()
        invariant
            i <= bytes.len(),
            s@ == hex_lower_chars(bytes@.subrange(0, i as int)),
        decreases bytes.len() - i,
    {
        let b = bytes[i];
        s.append(hex_digit_str(b / 16));
        s.append(hex_digit_str(b % 16));
        proof {
            let pre = bytes@.subrange(0, i as int + 1);
            assert(pre.drop_last() =~= bytes@.subrange(0, i as int));
            assert(pre.last() == b);
        }
        i = i + 1;
    }
    assert(bytes@.subrange(0, bytes@.len() as int) =~= bytes@);
    s
}

/// `a` and `b` hold the same characters.
pub fn str_eq(a: &str, b: &str) -> (r: bool)
    ensures
        r == (a@ == b@),
{
    let x = a.as_bytes();
    let y = b.as_bytes();
    proof {
        vstd::utf8::encode_utf8_decode_utf8(a@);
        vstd::utf8::encode_utf8_decode_utf8(b@);
    }
    if x.len() != y.len() {
        return false;
    }
    let mut i: usize = 0;
    while i < x.len()
        invariant
            x.len() == y.len(),
            x@ == a.spec_bytes(),
            y@ == b.spec_bytes(),
            i <= x.len(),
            forall|j: int| 0 <= j < i ==> x@[j] == y@[j],
        decreases x.len() - i,
    {
        if x[i] != y[i] {
            return false;
        }
        i = i + 1;
    }
    assert(x@ =~= y@);
    true
}

} // verus!

verus! {

/// `c` is one of `0-9`, `a-f`.
pub open spec fn is_lower_hex_digit(c: char) -> bool {
    (48 <= c as int <= 57) || (97 <= c as int <= 102)
}

/// `c` is one of `0-9`.
pub open spec fn is_decimal_digit(c: char) -> bool {
    48 <= c as int <= 57
}

/// The hex rendering has two characters per byte, all lowercase hex digits.
pub proof fn law_hex_lower_shape(bytes: Seq<u8>)
    ensures
        hex_lower_chars(bytes).len() == 2 * bytes.len(),
        forall|i: int|
            0 <= i < hex_lower_chars(bytes).len() ==> is_lower_hex_digit(
                #[trigger] hex_lower_chars(bytes)[i],
            ),
    decreases bytes.len(),
{
    if bytes.len() > 0 {
        law_hex_lower_shape(bytes.drop_last());
        let hi = (bytes.last() / 16) as int;
        let lo = (bytes.last() % 16) as int;
        assert(is_lower_hex_digit(hex_char(hi)));
        assert(is_lower_hex_digit(hex_char(lo)));
    }
}

/// The decimal rendering is a non-empty run of digits, with no leading zero
/// except for zero itself.
pub proof fn law_decimal_shape(n: nat)
    ensures
        decimal(n).len() >= 1,
        forall|i: int| 0 <= i < decimal(n).len() ==> is_decimal_digit(#[trigger] decimal(n)[i]),
        (decimal(n)[0] == '0') == (n == 0),
    decreases n,
{
    if n >= 10 {
        law_decimal_shape(n / 10);
        assert(is_decimal_digit(digit_char((n % 10) as int)));
    } else {
        assert(is_decimal_digit(digit_char(n as int)));
    }
}

} // verus!

verus! {

/// Position `2i` of the hex rendering holds the high nibble of byte `i`, and
/// position `2i + 1` its low nibble.
proof fn lemma_hex_lower_index(bytes: Seq<u8>, i: int)
    requires
        0 <= i < bytes.len(),
    ensures
        hex_lower_chars(bytes).len() == 2 * bytes.len(),
        hex_lower_chars(bytes)[2 * i] == hex_char((bytes[i] / 16) as int),
        hex_lower_chars(bytes)[2 * i + 1] == hex_char((bytes[i] % 16) as int),
    decreases bytes.len(),
{
    law_hex_lower_shape(bytes);
    let init = bytes.drop_last();
    law_hex_lower_shape(init);
    if i < bytes.len() - 1 {
        lemma_hex_lower_index(init, i);
    }
}

/// Different nibbles have different hex digits.
proof fn lemma_hex_char_injective(d: int, e: int)
    requires
        0 <= d < 16,
        0 <= e < 16,
        hex_char(d) == hex_char(e),
    ensures
        d == e,
{
    assert(hex_char(d) as int == if d < 10 { 48 + d } else { 87 + d });
    assert(hex_char(e) as int == if e < 10 { 48 + e } else { 87 + e });
}

/// The hex rendering of no bytes is empty, that of a concatenation is the
/// concatenation of the renderings, and different byte strings have
/// different renderings.
pub proof fn law_hex_lower_structure(a: Seq<u8>, b: Seq<u8>)
    ensures
        hex_lower_chars(Seq::<u8>::empty()) == Seq::<char>::empty(),
        hex_lower_chars(a + b) == hex_lower_chars(a) + hex_lower_chars(b),
        hex_lower_chars(a) == hex_lower_chars(b) ==> a == b,
    decreases b.len(),
{
    if b.len() > 0 {
        law_hex_lower_structure(a, b.drop_last());
        assert((a + b).drop_last() =~= a + b.drop_last());
        assert((a + b).last() == b.last());
        assert(hex_lower_chars(a + b) =~= hex_lower_chars(a) + hex_lower_chars(b));
    } else {
        assert(a + b =~= a);
        assert(hex_lower_chars(b) =~= Seq::<char>::empty());
    }
    if hex_lower_chars(a) == hex_lower_chars(b) {
        law_hex_lower_shape(a);
        law_hex_lower_shape(b);
        assert forall|i: int| 0 <= i < a.len() implies a[i] == b[i] by {
            lemma_hex_lower_index(a, i);
            lemma_hex_lower_index(b, i);
            lemma_hex_char_injective((a[i] / 16) as int, (b[i] / 16) as int);
            lemma_hex_char_injective((a[i] % 16) as int, (b[i] % 16) as int);
        }
        assert(a =~= b);
    }
}

} // verus!
