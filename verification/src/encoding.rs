//! Byte-to-text encodings of session identifiers and confirmation secrets,
//! stated as specifications and computed by the `data_encoding` crate.
use vstd::prelude::*;

verus! {

/// The symbol of the uppercase hexadecimal alphabet for a digit `n < 16`.
pub open spec fn hex_symbol(n: int) -> u8 {
    if n < 10 {
        (48 + n) as u8
    } else {
        (55 + n) as u8
    }
}

/// The `i`-th hexadecimal digit of `data`: the high nibble of a byte comes first.
pub open spec fn nibble(data: Seq<u8>, i: int) -> int {
    if i % 2 == 0 {
        (data[i / 2] as int) / 16
    } else {
        (data[i / 2] as int) % 16
    }
}

/// The uppercase hexadecimal encoding of `data`, as bytes.
pub open spec fn hex_upper_bytes(data: Seq<u8>) -> Seq<u8> {
    Seq::new(2 * data.len(), |i: int| hex_symbol(nibble(data, i)))
}

/// The uppercase hexadecimal encoding of `data`, as characters.
pub open spec fn hex_upper_chars(data: Seq<u8>) -> Seq<char> {
    Seq::new(2 * data.len(), |i: int| hex_symbol(nibble(data, i)) as char)
}

/// Whether `b` is one of `0-9` or `A-F`.
pub open spec fn is_hex_upper_symbol(b: u8) -> bool {
    (48 <= b <= 57) || (65 <= b <= 70)
}

/// The digit that an uppercase hexadecimal symbol stands for.
pub open spec fn hex_value(b: u8) -> int {
    if b <= 57 {
        b - 48
    } else {
        b - 55
    }
}

/// Whether `s` is a well-formed uppercase hexadecimal text: an even number of symbols
/// of `0-9A-F`.
pub open spec fn hex_upper_valid(s: Seq<u8>) -> bool {
    &&& s.len() % 2 == 0
    &&& forall|i: int| 0 <= i < s.len() ==> is_hex_upper_symbol(#[trigger] s[i])
}

/// The bytes that a well-formed uppercase hexadecimal text stands for.
pub open spec fn hex_upper_decoded(s: Seq<u8>) -> Seq<u8> {
    Seq::new(s.len() / 2, |i: int| (hex_value(s[2 * i]) * 16 + hex_value(s[2 * i + 1])) as u8)
}

/// The symbol of the base64url alphabet (RFC 4648, section 5) for a value `n < 64`.
pub open spec fn base64url_symbol(n: int) -> char {
    if n < 26 {
        (65 + n) as char
    } else if n < 52 {
        (97 + n - 26) as char
    } else if n < 62 {
        (48 + n - 52) as char
    } else if n == 62 {
        '-'
    } else {
        '_'
    }
}

/// The padded base64url encoding of `data` (RFC 4648, section 5).
pub open spec fn base64url_chars(data: Seq<u8>) -> Seq<char>
    decreases data.len(),
{
    if data.len() == 0 {
        seq![]
    } else if data.len() == 1 {
        seq![base64url_symbol((data[0] as int) / 4), base64url_symbol(((data[0] as int) % 4) * 16), '=', '=']
    } else if data.len() == 2 {
        seq![
            base64url_symbol((data[0] as int) / 4),
            base64url_symbol(((data[0] as int) % 4) * 16 + (data[1] as int) / 16),
            base64url_symbol(((data[1] as int) % 16) * 4),
            '=',
        ]
    } else {
        seq![
            base64url_symbol((data[0] as int) / 4),
            base64url_symbol(((data[0] as int) % 4) * 16 + (data[1] as int) / 16),
            base64url_symbol(((data[1] as int) % 16) * 4 + (data[2] as int) / 64),
            base64url_symbol((data[2] as int) % 64),
        ] + base64url_chars(data.skip(3))
    }
}

#[verifier::external_type_specification]
#[verifier::external_body]
pub struct ExDecodeError(data_encoding::DecodeError);

/// Calls `data_encoding::HEXUPPER.encode`, which writes each byte as two symbols of
/// `0123456789ABCDEF`, high nibble first. The crate asserts that the input is at most
/// `usize::MAX / 512` bytes long.
#[verifier::external_body]
pub(crate) fn hex_upper_encode(data: &[u8]) -> (res: String)
    requires
        data@.len() <= usize::MAX / 512,
    ensures
        res@ == hex_upper_chars(data@),
{
    data_encoding::HEXUPPER.encode(data)
}

/// Calls `data_encoding::HEXUPPER.decode`, which accepts exactly the texts of even length
/// made of `0-9A-F` (no padding, no ignored characters, lowercase refused) and returns the
/// bytes that they stand for. The crate asserts that the input is at most `usize::MAX / 8`
/// bytes long.
#[verifier::external_body]
pub(crate) fn hex_upper_decode(input: &[u8]) -> (res: Result<Vec<u8>, data_encoding::DecodeError>)
    requires
        input@.len() <= usize::MAX / 8,
    ensures
        res is Ok <==> hex_upper_valid(input@),
        res matches Ok(v) ==> v@ == hex_upper_decoded(input@),
{
    data_encoding::HEXUPPER.decode(input)
}

/// Calls `data_encoding::BASE64URL.encode`, the padded base64url encoding of RFC 4648.
/// The crate asserts that the input is at most `usize::MAX / 512` bytes long.
#[verifier::external_body]
pub(crate) fn base64url_encode(data: &[u8]) -> (res: String)
    requires
        data@.len() <= usize::MAX / 512,
    ensures
        res@ == base64url_chars(data@),
{
    data_encoding::BASE64URL.encode(data)
}

/// The padded base64url text of `n` bytes has four characters for every started group of
/// three bytes.
pub proof fn lemma_base64url_len(data: Seq<u8>)
    ensures
        base64url_chars(data).len() == 4 * ((data.len() + 2) / 3),
    decreases data.len(),
{
    if data.len() > 2 {
        lemma_base64url_len(data.skip(3));
    }
}

/// Decoding the uppercase hexadecimal text of any bytes gives the bytes back.
pub proof fn lemma_hex_round_trip(data: Seq<u8>)
    ensures
        hex_upper_valid(hex_upper_bytes(data)),
        hex_upper_decoded(hex_upper_bytes(data)) == data,
{
    let e = hex_upper_bytes(data);
    assert forall|i: int| 0 <= i < e.len() implies is_hex_upper_symbol(#[trigger] e[i]) by {
        assert(0 <= nibble(data, i) < 16);
    }
    assert forall|i: int| 0 <= i < data.len() implies #[trigger] hex_upper_decoded(e)[i]
        == data[i] by {
        assert(nibble(data, 2 * i) == (data[i] as int) / 16);
        assert(nibble(data, 2 * i + 1) == (data[i] as int) % 16);
    }
    assert(hex_upper_decoded(e) =~= data);
}

/// The hexadecimal characters of any bytes are ASCII, and their UTF-8 encoding is the
/// hexadecimal text of those bytes.
pub proof fn lemma_hex_chars_utf8(data: Seq<u8>)
    ensures
        vstd::utf8::encode_utf8(hex_upper_chars(data)) == hex_upper_bytes(data),
{
    let c = hex_upper_chars(data);
    assert(vstd::utf8::is_ascii_chars(c)) by {
        assert forall|i: int| 0 <= i < c.len() implies '\0' <= #[trigger] c[i] <= '\u{7f}' by {
            assert(0 <= nibble(data, i) < 16);
        }
    }
    vstd::utf8::is_ascii_chars_encode_utf8(c);
    let e = vstd::utf8::encode_utf8(c);
    assert forall|i: int| 0 <= i < c.len() implies #[trigger] e[i] == hex_upper_bytes(data)[i] by {
        assert(0 <= nibble(data, i) < 16);
        assert(c[i] as u8 == e[i]);
    }
    assert(e =~= hex_upper_bytes(data));
}

} // verus!
