//! Mathematical descriptions of the byte and text encodings used for
//! addresses and seeds: lowercase hexadecimal, hexadecimal decoding,
//! big-endian numbers and Base58 with the Bitcoin alphabet.
use vstd::prelude::*;

verus! {

/// The lowercase hexadecimal digit of a value below 16.
pub open spec fn hex_digit(v: int) -> char {
    if v < 10 {
        (48 + v) as char
    } else {
        (87 + v) as char
    }
}

/// Lowercase hexadecimal text of a byte string: two digits per byte,
/// high nibble first.
pub open spec fn hex_lower(b: Seq<u8>) -> Seq<char> {
    Seq::new(
        2 * b.len(),
        |i: int|
            if i % 2 == 0 {
                hex_digit(b[i / 2] as int / 16)
            } else {
                hex_digit(b[i / 2] as int % 16)
            },
    )
}

/// An ASCII hexadecimal digit, in either case.
pub open spec fn is_hex_byte(c: u8) -> bool {
    (48 <= c <= 57) || (65 <= c <= 70) || (97 <= c <= 102)
}

/// The value of an ASCII hexadecimal digit.
pub open spec fn hex_byte_value(c: u8) -> int {
    if 48 <= c <= 57 {
        c - 48
    } else if 65 <= c <= 70 {
        c - 55
    } else {
        c - 87
    }
}

/// Text that decodes as hexadecimal: an even number of hexadecimal digits.
pub open spec fn hex_decodable(s: Seq<u8>) -> bool {
    &&& s.len() % 2 == 0
    &&& forall|i: int| 0 <= i < s.len() ==> is_hex_byte(#[trigger] s[i])
}

/// The bytes that hexadecimal text stands for, two digits per byte.
pub open spec fn hex_decoded(s: Seq<u8>) -> Seq<u8> {
    Seq::new(
        s.len() / 2,
        |i: int| (16 * hex_byte_value(s[2 * i]) + hex_byte_value(s[2 * i + 1])) as u8,
    )
}

/// The number that a byte string stands for, most significant byte first.
pub open spec fn be_value(b: Seq<u8>) -> nat
    decreases b.len(),
{
    if b.len() == 0 {
        0
    } else {
        be_value(b.drop_last()) * 256 + b.last() as nat
    }
}

/// Number of zero bytes at the front of a byte string.
pub open spec fn leading_zero_bytes(b: Seq<u8>) -> nat
    decreases b.len(),
{
    if b.len() > 0 && b[0] == 0 {
        1 + leading_zero_bytes(b.drop_first())
    } else {
        0
    }
}

/// The Base58 digit of a value below 58, in the Bitcoin alphabet
/// `123456789ABCDEFGHJKLMNPQRSTUVWXYZabcdefghijkmnopqrstuvwxyz`.
pub open spec fn base58_digit(d: int) -> char {
    if d < 9 {
        (49 + d) as char
    } else if d < 17 {
        (56 + d) as char
    } else if d < 22 {
        (57 + d) as char
    } else if d < 33 {
        (58 + d) as char
    } else if d < 44 {
        (64 + d) as char
    } else {
        (65 + d) as char
    }
}

/// Base58 digits of a number, most significant first, with no leading zero digit.
pub open spec fn base58_digits(n: nat) -> Seq<char>
    decreases n,
{
    if n == 0 {
        Seq::empty()
    } else {
        base58_digits(n / 58).push(base58_digit((n % 58) as int))
    }
}

/// Base58 text of a byte string: one `1` per leading zero byte, then the
/// digits of the number that the bytes stand for.
pub open spec fn base58_encode(b: Seq<u8>) -> Seq<char> {
    Seq::new(leading_zero_bytes(b), |i: int| '1') + base58_digits(be_value(b))
}

} // verus!

verus! {

/// `base` raised to the power `e`.
pub open spec fn pow_nat(base: nat, e: nat) -> nat
    decreases e,
{
    if e == 0 {
        1
    } else {
        base * pow_nat(base, (e - 1) as nat)
    }
}

/// The first byte of a byte string bounds the number it stands for: with
/// `L` bytes, the number lies in `[b0 · 256^(L-1), (b0 + 1) · 256^(L-1))`.
pub proof fn lemma_be_value_bounds(b: Seq<u8>)
    requires
        b.len() >= 1,
    ensures
        b[0] * pow_nat(256, (b.len() - 1) as nat) <= be_value(b),
        be_value(b) < (b[0] + 1) * pow_nat(256, (b.len() - 1) as nat),
    decreases b.len(),
{
    if b.len() == 1 {
        assert(b.drop_last().len() == 0);
        assert(be_value(b.drop_last()) == 0);
        assert(be_value(b) == b.last() as nat);
        assert(b.last() == b[0]);
        assert(pow_nat(256, 0) == 1);
    } else {
        let c = b.drop_last();
        lemma_be_value_bounds(c);
        assert(c[0] == b[0]);
        let p = pow_nat(256, (c.len() - 1) as nat);
        assert(pow_nat(256, (b.len() - 1) as nat) == 256 * p);
        let v = be_value(c);
        let last = b.last() as nat;
        let b0 = b[0] as nat;
        assert(be_value(b) == v * 256 + last);
        assert(b0 * (256 * p) <= v * 256 + last && v * 256 + last < (b0 + 1) * (256 * p))
            by (nonlinear_arith)
            requires
                b0 * p <= v,
                v < (b0 + 1) * p,
                last < 256,
        ;
    }
}

/// A number with `k` Base58 digits, `58^(k-1) <= n < 58^k`, has exactly `k`
/// digits, the first being `n / 58^(k-1)`.
pub proof fn lemma_base58_first_digit(n: nat, k: nat)
    requires
        k >= 1,
        pow_nat(58, (k - 1) as nat) <= n,
        n < pow_nat(58, k),
    ensures
        base58_digits(n).len() == k,
        base58_digits(n)[0] == base58_digit((n / pow_nat(58, (k - 1) as nat)) as int),
    decreases k,
{
    if k == 1 {
        assert(n < 58);
        assert(n / 58 == 0);
        assert(base58_digits(0).len() == 0);
        assert(n % 58 == n);
    } else {
        let q = n / 58;
        let p = pow_nat(58, (k - 2) as nat);
        assert(pow_nat(58, (k - 1) as nat) == 58 * p);
        assert(pow_nat(58, k) == 58 * (58 * p));
        assert(p <= q && q < 58 * p) by (nonlinear_arith)
            requires
                58 * p <= n,
                n < 58 * (58 * p),
                q == n / 58,
        ;
        lemma_base58_first_digit(q, (k - 1) as nat);
        assert(q / p == n / (58 * p)) by (nonlinear_arith)
            requires
                q == n / 58,
                p > 0,
        {
            vstd::arithmetic::div_mod::lemma_div_denominator(n as int, 58, p as int);
        }
        assert(n > 0);
    }
}

/// Base58 text of 25 bytes led by `0x41` begins with `T`.
pub proof fn lemma_base58_of_0x41_payload(b: Seq<u8>)
    requires
        b.len() == 25,
        b[0] == 0x41,
    ensures
        base58_encode(b).len() > 0,
        base58_encode(b)[0] == 'T',
{
    lemma_be_value_bounds(b);
    assert(pow_nat(256, 24) == 6277101735386680763835789423207666416102355444464034512896nat) by {
        reveal_with_fuel(pow_nat, 25);
    }
    assert(pow_nat(58, 34) == 904798310844700775313327215140493940623303545877497699631104nat) by {
        reveal_with_fuel(pow_nat, 35);
    }
    assert(pow_nat(58, 33) == 15599970876632771988160814054146447252125923204784443097088nat);
    let v = be_value(b);
    let p = pow_nat(58, 33);
    assert(26 * p <= v && v < 27 * p);
    assert(v / p == 26) by (nonlinear_arith)
        requires
            26 * p <= v,
            v < 27 * p,
            p > 0,
    ;
    lemma_base58_first_digit(v, 34);
    assert(leading_zero_bytes(b) == 0);
    assert(base58_encode(b) =~= base58_digits(v));
}

} // verus!

verus! {

/// The bytes of an ASCII text.
pub open spec fn ascii_bytes(t: Seq<char>) -> Seq<u8> {
    Seq::new(t.len(), |i: int| t[i] as u8)
}

/// A lowercase digit, read back as ASCII, is a hexadecimal digit of the
/// same value.
proof fn lemma_hex_digit_reads_back(v: int)
    requires
        0 <= v < 16,
    ensures
        is_hex_byte(hex_digit(v) as u8),
        hex_byte_value(hex_digit(v) as u8) == v,
{
}

/// Lowercase hexadecimal text of any byte string decodes back to it.
pub proof fn lemma_hex_lower_decodes(b: Seq<u8>)
    ensures
        hex_decodable(ascii_bytes(hex_lower(b))),
        hex_decoded(ascii_bytes(hex_lower(b))) == b,
{
    let text = ascii_bytes(hex_lower(b));
    assert forall|i: int| 0 <= i < text.len() implies is_hex_byte(#[trigger] text[i]) by {
        if i % 2 == 0 {
            lemma_hex_digit_reads_back(b[i / 2] as int / 16);
        } else {
            lemma_hex_digit_reads_back(b[i / 2] as int % 16);
        }
    }
    assert forall|k: int| 0 <= k < b.len() implies #[trigger] hex_decoded(text)[k] == b[k] by {
        let v = b[k] as int;
        assert((2 * k) / 2 == k);
        assert((2 * k + 1) / 2 == k);
        assert((2 * k) % 2 == 0);
        assert((2 * k + 1) % 2 == 1);
        lemma_hex_digit_reads_back(v / 16);
        lemma_hex_digit_reads_back(v % 16);
        assert(16 * (v / 16) + v % 16 == v);
    }
    assert(hex_decoded(text) =~= b);
}

} // verus!
