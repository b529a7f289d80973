//! Hexadecimal text and the bytes it stands for.
use vstd::prelude::*;

verus! {

/// The lowercase hexadecimal digit of a number below sixteen.
pub open spec fn hex_digit(n: int) -> char
    recommends
        0 <= n < 16,
{
    if n < 10 {
        (48 + n) as char
    } else {
        (87 + n) as char
    }
}

/// What a hexadecimal digit of either case is worth, or `None` for any other character.
pub open spec fn digit_value(c: char) -> Option<int> {
    if '0' <= c <= '9' {
        Some(c as int - 48)
    } else if 'a' <= c <= 'f' {
        Some(c as int - 87)
    } else if 'A' <= c <= 'F' {
        Some(c as int - 55)
    } else {
        None
    }
}

/// The lowercase hexadecimal text of `bytes`: two digits per byte, the high one first.
pub open spec fn hex_text(bytes: Seq<u8>) -> Seq<char> {
    Seq::new(
        2 * bytes.len(),
        |i: int|
            if i % 2 == 0 {
                hex_digit(bytes[i / 2] as int / 16)
            } else {
                hex_digit(bytes[i / 2] as int % 16)
            },
    )
}

/// Whether every character of `s` is a hexadecimal digit.
pub open spec fn all_hex_digits(s: Seq<char>) -> bool {
    forall|i: int| 0 <= i < s.len() ==> digit_value(#[trigger] s[i]) is Some
}

/// Whether `s` writes out whole bytes in hexadecimal.
pub open spec fn is_hex_text(s: Seq<char>) -> bool {
    s.len() % 2 == 0 && all_hex_digits(s)
}

/// The bytes that the hexadecimal text `s` writes out.
pub open spec fn hex_bytes(s: Seq<char>) -> Seq<u8>
    recommends
        is_hex_text(s),
{
    Seq::new(
        s.len() / 2,
        |i: int| (16 * digit_value(s[2 * i])->0 + digit_value(s[2 * i + 1])->0) as u8,
    )
}

/// The text under which a transaction or block hash is known: the hexadecimal
/// text of its bytes, last byte first.
pub open spec fn hash_text(bytes: Seq<u8>) -> Seq<char> {
    hex_text(bytes.reverse())
}

/// Whether `s` is the text of a 32-byte hash.
pub open spec fn is_hash_text(s: Seq<char>) -> bool {
    s.len() == 64 && all_hex_digits(s)
}

/// The bytes of the hash that the text `s` names.
pub open spec fn hash_bytes(s: Seq<char>) -> Seq<u8>
    recommends
        is_hash_text(s),
{
    hex_bytes(s).reverse()
}

/// Reading hexadecimal text gives back the bytes that were written, for every
/// sequence of bytes.
pub proof fn law_hex_reads_back(bytes: Seq<u8>)
    ensures
        hex_text(bytes).len() == 2 * bytes.len(),
        is_hex_text(hex_text(bytes)),
        hex_bytes(hex_text(bytes)) == bytes,
{
    let s = hex_text(bytes);
    assert forall|i: int| 0 <= i < s.len() implies digit_value(#[trigger] s[i]) is Some by {
        let b = bytes[i / 2] as int;
        assert(0 <= b / 16 < 16 && 0 <= b % 16 < 16);
    }
    assert forall|i: int| 0 <= i < bytes.len() implies hex_bytes(s)[i] == bytes[i] by {
        let b = bytes[i] as int;
        assert(0 <= b / 16 < 16 && 0 <= b % 16 < 16);
        assert((2 * i) / 2 == i && (2 * i) % 2 == 0);
        assert((2 * i + 1) / 2 == i && (2 * i + 1) % 2 == 1);
        assert(s[2 * i] == hex_digit(b / 16));
        assert(s[2 * i + 1] == hex_digit(b % 16));
        assert(digit_value(s[2 * i]) == Some(b / 16));
        assert(digit_value(s[2 * i + 1]) == Some(b % 16));
    }
    assert(hex_bytes(s) =~= bytes);
}

/// Reading the text of a hash gives back the hash, for every 32-byte hash.
pub proof fn law_hash_reads_back(bytes: Seq<u8>)
    requires
        bytes.len() == 32,
    ensures
        is_hash_text(hash_text(bytes)),
        hash_bytes(hash_text(bytes)) == bytes,
{
    law_hex_reads_back(bytes.reverse());
    assert(bytes.reverse().reverse() =~= bytes);
}

/// Two hashes with the same text are the same hash.
pub proof fn law_hash_text_is_unique(a: Seq<u8>, b: Seq<u8>)
    requires
        a.len() == 32,
        b.len() == 32,
        hash_text(a) == hash_text(b),
    ensures
        a == b,
{
    law_hash_reads_back(a);
    law_hash_reads_back(b);
}

/// Hexadecimal text writes each byte in its place with two of the sixteen
/// lowercase digits, the high half first. The text of a hash takes the bytes from
/// the last to the first.
pub proof fn law_hex_digits(bytes: Seq<u8>, i: int)
    requires
        0 <= i < bytes.len(),
    ensures
        hex_text(bytes).len() == 2 * bytes.len(),
        hex_text(bytes)[2 * i] == "0123456789abcdef"@[bytes[i] as int / 16],
        hex_text(bytes)[2 * i + 1] == "0123456789abcdef"@[bytes[i] as int % 16],
        hash_text(bytes).len() == 2 * bytes.len(),
        hash_text(bytes)[2 * i] == "0123456789abcdef"@[bytes[bytes.len() - 1 - i] as int / 16],
        hash_text(bytes)[2 * i + 1] == "0123456789abcdef"@[bytes[bytes.len() - 1 - i] as int % 16],
{
    assert((2 * i) / 2 == i && (2 * i) % 2 == 0);
    assert((2 * i + 1) / 2 == i && (2 * i + 1) % 2 == 1);
    lemma_hex_digit_table(bytes[i] as int / 16);
    lemma_hex_digit_table(bytes[i] as int % 16);
    lemma_hex_digit_table(bytes[bytes.len() - 1 - i] as int / 16);
    lemma_hex_digit_table(bytes[bytes.len() - 1 - i] as int % 16);
}

/// The hexadecimal digits, one after the other.
proof fn lemma_hex_digit_table(n: int)
    requires
        0 <= n < 16,
    ensures
        hex_digit(n) == "0123456789abcdef"@[n],
{
    reveal_strlit("0123456789abcdef");
}

/// A hexadecimal digit of either case is read for its place among the sixteen.
pub proof fn law_digits_are_read_in_either_case(n: int)
    requires
        0 <= n < 16,
    ensures
        digit_value("0123456789abcdef"@[n]) == Some(n),
        digit_value("0123456789ABCDEF"@[n]) == Some(n),
{
    reveal_strlit("0123456789abcdef");
    reveal_strlit("0123456789ABCDEF");
}

/// Reading the text of bytes of any number from the last to the first gives them
/// back.
pub proof fn law_reversed_hex_reads_back(bytes: Seq<u8>)
    ensures
        all_hex_digits(hash_text(bytes)),
        hash_bytes(hash_text(bytes)) == bytes,
{
    law_hex_reads_back(bytes.reverse());
    assert(bytes.reverse().reverse() =~= bytes);
}

} // verus!
