//! Text encodings used by the node: lower-case hexadecimal (hashes, keys and
//! signatures) and the decimal keys under which blocks are stored.
use vstd::prelude::*;
use vstd::string::StringSliceAdditionalSpecFns;
use vstd::utf8::*;

verus! {

/// The ASCII code of the lower-case hexadecimal digit for `n` (`n < 16`).
pub open spec fn hex_digit(n: u8) -> u8 {
    if n < 10 {
        (48 + n) as u8
    } else {
        (87 + n) as u8
    }
}

/// The ASCII codes of the lower-case hexadecimal text of `bytes`: two digits
/// per byte, the high nibble first.
pub open spec fn hex_ascii(bytes: Seq<u8>) -> Seq<u8> {
    Seq::new(
        2 * bytes.len(),
        |i: int|
            if i % 2 == 0 {
                hex_digit(bytes[i / 2] / 16)
            } else {
                hex_digit(bytes[i / 2] % 16)
            },
    )
}

/// The characters whose codes are `codes`.
pub open spec fn ascii_text(codes: Seq<u8>) -> Seq<char> {
    codes.map_values(|c: u8| c as char)
}

/// The lower-case hexadecimal text of `bytes`.
pub open spec fn lower_hex(bytes: Seq<u8>) -> Seq<char> {
    ascii_text(hex_ascii(bytes))
}

/// True when every code in `codes` is an ASCII code.
pub open spec fn all_ascii(codes: Seq<u8>) -> bool {
    forall|i: int| 0 <= i < codes.len() ==> codes[i] < 128
}

/// A sequence of ASCII codes is valid UTF-8 and decodes to the characters
/// with those codes.
pub proof fn lemma_ascii_decodes(codes: Seq<u8>)
    requires
        all_ascii(codes),
    ensures
        valid_utf8(codes),
        decode_utf8(codes) == ascii_text(codes),
{
    let cs = ascii_text(codes);
    assert(is_ascii_chars(cs)) by {
        assert forall|i: int| 0 <= i < cs.len() implies '\0' <= #[trigger] cs[i] <= '\u{7f}' by {
            assert(codes[i] < 128);
        }
    }
    is_ascii_chars_encode_utf8(cs);
    assert forall|i: int| 0 <= i < codes.len() implies encode_utf8(cs)[i] == codes[i] by {
        assert(cs[i] == codes[i] as char);
    }
    assert(encode_utf8(cs) =~= codes);
    encode_utf8_valid_utf8(cs);
    encode_utf8_decode_utf8(cs);
}

/// Wraps `String::from_utf8`: the bytes, valid UTF-8 by the precondition,
/// become the string that they encode.
#[verifier::external_body]
fn string_from_utf8(bytes: Vec<u8>) -> (res: String)
    requires
        valid_utf8(bytes@),
    ensures
        res@ == decode_utf8(bytes@),
{
    match String::from_utf8(bytes) {
        Ok(s) => s,
        Err(_) => String::new(),
    }
}

/// The string made of the ASCII codes `codes`.
fn ascii_string(codes: Vec<u8>) -> (res: String)
    requires
        all_ascii(codes@),
    ensures
        res@ == ascii_text(codes@),
{
    proof {
        lemma_ascii_decodes(codes@);
    }
    string_from_utf8(codes)
}

fn hex_digit_code(n: u8) -> (c: u8)
    requires
        n < 16,
    ensures
        c == hex_digit(n),
        c < 128,
{
    if n < 10 {
        48 + n
    } else {
        87 + n
    }
}

/// Formats each byte as two lower-case hexadecimal digits (`{:02x}`) and
/// joins them, as the transaction hash is written.
pub fn to_lower_hex(bytes: &[u8]) -> (res: String)
    ensures
        res@ == lower_hex(bytes@),
{
    let mut codes: Vec<u8> = Vec::new();
    let n = bytes.len();
    for i in 0..n
        invariant
            n == bytes@.len(),
            codes@ =~= hex_ascii(bytes@.subrange(0, i as int)),
            all_ascii(codes@),
    {
        let b = bytes[i];
        codes.push(hex_digit_code(b / 16));
        codes.push(hex_digit_code(b % 16));
        assert(codes@ =~= hex_ascii(bytes@.subrange(0, i + 1)));
    }
    assert(bytes@.subrange(0, n as int) =~= bytes@);
    ascii_string(codes)
}


/// Wraps `hex::encode` (hex 0.4): each byte becomes two digits from the
/// table `0123456789abcdef`, the high nibble first.
#[verifier::external_body]
pub(crate) fn hex_encode(bytes: &[u8]) -> (res: String)
    ensures
        res@ == lower_hex(bytes@),
{
    hex::encode(bytes)
}

/// The value of the hexadecimal digit with ASCII code `c`, of either case.
pub open spec fn hex_value(c: u8) -> Option<u8> {
    if 48 <= c <= 57 {
        Some((c - 48) as u8)
    } else if 65 <= c <= 70 {
        Some((c - 55) as u8)
    } else if 97 <= c <= 102 {
        Some((c - 87) as u8)
    } else {
        None
    }
}

/// True when `text` is an even number of hexadecimal digits.
pub open spec fn is_hex_text(text: Seq<u8>) -> bool {
    &&& text.len() % 2 == 0
    &&& forall|i: int| 0 <= i < text.len() ==> (#[trigger] hex_value(text[i])) is Some
}

/// What `hex::decode` gives for `text`: the bytes that each pair of digits
/// spells, or `None` where the text has an odd length or a character that
/// is no hexadecimal digit.
pub open spec fn hex_decode_text(text: Seq<u8>) -> Option<Seq<u8>> {
    if is_hex_text(text) {
        Some(
            Seq::new(
                text.len() / 2,
                |i: int|
                    (hex_value(text[2 * i]).unwrap() * 16 + hex_value(
                        text[2 * i + 1],
                    ).unwrap()) as u8,
            ),
        )
    } else {
        None
    }
}

/// Wraps `hex::decode` (hex 0.4), which reads the UTF-8 bytes of `text`:
/// `Ok` with the decoded bytes exactly when `text` is an even number of
/// hexadecimal digits of either case, an error otherwise.
#[verifier::external_body]
pub(crate) fn hex_decode(text: &str) -> (res: Option<Vec<u8>>)
    ensures
        match res {
            Some(v) => hex_decode_text(text.spec_bytes()) == Some(v@),
            None => hex_decode_text(text.spec_bytes()) is None,
        },
{
    match hex::decode(text) {
        Ok(v) => Some(v),
        Err(_) => None,
    }
}

/// Decoding the hexadecimal text of any bytes gives those bytes back: what
/// `ECDSA::sign_message` and `ECDSA::generate_keys` write, `ECDSA::verify`
/// and `ECDSA::sign_message` read.
pub proof fn law_hex_round_trip(bytes: Seq<u8>)
    ensures
        hex_decode_text(hex_ascii(bytes)) == Some(bytes),
{
    let t = hex_ascii(bytes);
    assert forall|i: int| 0 <= i < t.len() implies (#[trigger] hex_value(t[i])) is Some by {
        let b = bytes[i / 2];
        assert(b / 16 < 16 && b % 16 < 16);
    }
    let d = hex_decode_text(t).unwrap();
    assert forall|i: int| 0 <= i < bytes.len() implies d[i] == bytes[i] by {
        let b = bytes[i];
        assert((2 * i) / 2 == i && (2 * i + 1) / 2 == i);
        assert((2 * i) % 2 == 0 && (2 * i + 1) % 2 == 1);
        assert(hex_value(hex_digit(b / 16)) == Some(b / 16));
        assert(hex_value(hex_digit(b % 16)) == Some(b % 16));
        assert((b / 16) * 16 + b % 16 == b);
    }
    assert(d =~= bytes);
}

/// True when `c` is the ASCII code of a decimal digit.
pub open spec fn is_digit(c: u8) -> bool {
    48 <= c <= 57
}

/// True when `text` is made of decimal digits only.
pub open spec fn all_digits(text: Seq<u8>) -> bool {
    forall|i: int| 0 <= i < text.len() ==> is_digit(#[trigger] text[i])
}

/// The number that the decimal digits `text` spell.
pub open spec fn digits_value(text: Seq<u8>) -> nat
    decreases text.len(),
{
    if text.len() == 0 {
        0
    } else {
        digits_value(text.drop_last()) * 10 + (text.last() - 48) as nat
    }
}

/// The decimal digits of `n`, without leading zeros, as `to_string` writes
/// them.
pub open spec fn decimal_digits(n: nat) -> Seq<u8>
    decreases n,
{
    if n < 10 {
        seq![(48 + n) as u8]
    } else {
        decimal_digits(n / 10).push((48 + n % 10) as u8)
    }
}

/// The digits of an unsigned number as `str::parse` reads them: one leading
/// `+` is dropped.
pub open spec fn unsigned_digits(text: Seq<u8>) -> Seq<u8> {
    if text.len() > 0 && text[0] == 43 {
        text.drop_first()
    } else {
        text
    }
}

/// What `String::from_utf8_lossy(text).parse::<u64>()` gives: the number,
/// where `text` is an optional `+` and at least one decimal digit whose
/// value fits in a `u64`; `None` otherwise (bytes that are no ASCII digit,
/// invalid UTF-8 among them, make the parse fail).
pub open spec fn parse_u64_text(text: Seq<u8>) -> Option<u64> {
    let d = unsigned_digits(text);
    if d.len() > 0 && all_digits(d) && digits_value(d) <= u64::MAX {
        Some(digits_value(d) as u64)
    } else {
        None
    }
}

proof fn lemma_digits_prefix_le(text: Seq<u8>, j: int)
    requires
        0 <= j <= text.len(),
    ensures
        digits_value(text.subrange(0, j)) <= digits_value(text),
    decreases text.len(),
{
    if j < text.len() {
        let t = text.drop_last();
        assert(t.subrange(0, j) =~= text.subrange(0, j));
        lemma_digits_prefix_le(t, j);
    } else {
        assert(text.subrange(0, j) =~= text);
    }
}

proof fn lemma_decimal_digits(n: nat)
    ensures
        decimal_digits(n).len() > 0,
        all_digits(decimal_digits(n)),
        decimal_digits(n)[0] != 43,
        digits_value(decimal_digits(n)) == n,
    decreases n,
{
    let d = decimal_digits(n);
    if n >= 10 {
        lemma_decimal_digits(n / 10);
        assert(d.drop_last() =~= decimal_digits(n / 10));
        assert(d.last() == (48 + n % 10) as u8);
        assert(n % 10 < 10);
        assert(d.last() - 48 == n % 10);
        assert(digits_value(d) == digits_value(d.drop_last()) * 10 + (d.last() - 48) as nat);
        assert((n / 10) * 10 + n % 10 == n);
    } else {
        assert(d.drop_last() =~= Seq::<u8>::empty());
        assert(digits_value(d) == digits_value(d.drop_last()) * 10 + (d.last() - 48) as nat);
    }
}

/// The key under which a block is stored, `index.to_string()`, is read back
/// as `index` by the parse of `Blockchain::get_last_block`.
pub proof fn law_block_key_round_trip(index: u64)
    ensures
        parse_u64_text(decimal_digits(index as nat)) == Some(index),
{
    lemma_decimal_digits(index as nat);
}

/// Blocks of different heights are stored under different keys.
pub proof fn law_block_keys_distinct(a: u64, b: u64)
    requires
        a != b,
    ensures
        decimal_digits(a as nat) != decimal_digits(b as nat),
{
    law_block_key_round_trip(a);
    law_block_key_round_trip(b);
}

fn decimal_codes(n: u64) -> (res: Vec<u8>)
    ensures
        res@ == decimal_digits(n as nat),
    decreases n,
{
    if n < 10 {
        let mut v: Vec<u8> = Vec::new();
        v.push(48 + n as u8);
        assert(v@ =~= decimal_digits(n as nat));
        v
    } else {
        let mut v = decimal_codes(n / 10);
        v.push(48 + (n % 10) as u8);
        v
    }
}

/// The bytes of the key under which the block of height `index` is stored:
/// the decimal text of `index`.
pub fn block_key(index: u64) -> (res: Vec<u8>)
    ensures
        res@ == decimal_digits(index as nat),
        parse_u64_text(res@) == Some(index),
{
    proof {
        law_block_key_round_trip(index);
    }
    decimal_codes(index)
}

/// Reads a stored key back as a block height, as
/// `String::from_utf8_lossy(key).parse::<u64>()` does.
pub fn parse_block_key(text: &[u8]) -> (res: Option<u64>)
    ensures
        res == parse_u64_text(text@),
{
    let n = text.len();
    let mut start: usize = 0;
    if n > 0 && text[0] == 43 {
        start = 1;
    }
    let ghost d = unsigned_digits(text@);
    assert(d =~= text@.subrange(start as int, n as int));
    if start == n {
        return None;
    }
    let mut acc: u64 = 0;
    let mut i = start;
    while i < n
        invariant
            start <= i <= n,
            n == text@.len(),
            start < n,
            d == text@.subrange(start as int, n as int),
            d == unsigned_digits(text@),
            all_digits(d.subrange(0, i - start)),
            acc as nat == digits_value(d.subrange(0, i - start)),
        decreases n - i,
    {
        let c = text[i];
        assert(d[i - start] == c);
        if c < 48 || c > 57 {
            assert(!is_digit(d[i - start]));
            return None;
        }
        let ghost prefix = d.subrange(0, i + 1 - start);
        assert(prefix.drop_last() =~= d.subrange(0, i - start));
        assert(prefix.last() == c);
        assert(digits_value(prefix) == acc * 10 + (c - 48));
        match acc.checked_mul(10) {
            Some(m) => match m.checked_add((c - 48) as u64) {
                Some(a) => {
                    acc = a;
                },
                None => {
                    proof {
                        if all_digits(d) {
                            lemma_digits_prefix_le(d, i + 1 - start);
                            assert(digits_value(d) > u64::MAX);
                        }
                    }
                    return None;
                },
            },
            None => {
                proof {
                    if all_digits(d) {
                        lemma_digits_prefix_le(d, i + 1 - start);
                    }
                }
                return None;
            },
        }
        i = i + 1;
    }
    assert(d.subrange(0, n - start) =~= d);
    Some(acc)
}

} // verus!
