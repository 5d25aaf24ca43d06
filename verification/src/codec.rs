//! Base64 encoding and decoding, delegated to the `base64` crate.

use base64::Engine;
use vstd::prelude::*;

verus! {


/// The base64 digit of the 6-bit value `v`: `A`-`Z`, `a`-`z`, `0`-`9`, then
/// `+` and `/` in the standard alphabet, `-` and `_` in the URL-safe one.
pub open spec fn base64_digit(url_safe: bool, v: int) -> char {
    if v < 26 {
        (65 + v) as char
    } else if v < 52 {
        (97 + v - 26) as char
    } else if v < 62 {
        (48 + v - 52) as char
    } else if v == 62 {
        if url_safe { '-' } else { '+' }
    } else {
        if url_safe { '_' } else { '/' }
    }
}

/// Base64 text of `input` (RFC 4648): every 3 bytes become 4 digits; a last
/// group of 1 or 2 bytes becomes 2 or 3 digits, followed by `=` up to 4
/// characters when `padded`.
pub open spec fn base64_text(input: Seq<u8>, url_safe: bool, padded: bool) -> Seq<char>
    decreases input.len(),
{
    if input.len() == 0 {
        Seq::empty()
    } else if input.len() == 1 {
        let b0 = input[0] as int;
        seq![base64_digit(url_safe, b0 / 4), base64_digit(url_safe, (b0 % 4) * 16)] + if padded {
            seq!['=', '=']
        } else {
            Seq::empty()
        }
    } else if input.len() == 2 {
        let b0 = input[0] as int;
        let b1 = input[1] as int;
        seq![
            base64_digit(url_safe, b0 / 4),
            base64_digit(url_safe, (b0 % 4) * 16 + b1 / 16),
            base64_digit(url_safe, (b1 % 16) * 4),
        ] + if padded {
            seq!['=']
        } else {
            Seq::empty()
        }
    } else {
        let b0 = input[0] as int;
        let b1 = input[1] as int;
        let b2 = input[2] as int;
        seq![
            base64_digit(url_safe, b0 / 4),
            base64_digit(url_safe, (b0 % 4) * 16 + b1 / 16),
            base64_digit(url_safe, (b1 % 16) * 4 + b2 / 64),
            base64_digit(url_safe, b2 % 64),
        ] + base64_text(input.skip(3), url_safe, padded)
    }
}

/// The text `base64::engine::general_purpose::STANDARD.encode` produces for
/// the given bytes: standard alphabet, `=` padding.
pub open spec fn base64_standard_encoding(input: Seq<u8>) -> Seq<char> {
    base64_text(input, false, true)
}

/// The text `base64::engine::general_purpose::URL_SAFE_NO_PAD.encode`
/// produces for the given bytes: URL-safe alphabet, no padding.
pub open spec fn base64_url_nopad_encoding(input: Seq<u8>) -> Seq<char> {
    base64_text(input, true, false)
}

/// The characters of the bytes `input`, one for each byte.
pub open spec fn byte_chars(input: Seq<u8>) -> Seq<char> {
    input.map_values(|x: u8| x as char)
}

/// What `base64::engine::general_purpose::STANDARD.decode` yields for the
/// given input bytes. That engine accepts canonical padding only and no
/// stray bits in the last symbol, so it accepts exactly the standard padded
/// base64 texts and gives back the bytes they encode; `None` elsewhere.
pub open spec fn base64_standard_decoding(input: Seq<u8>) -> Option<Seq<u8>> {
    if exists|b: Seq<u8>| #[trigger] base64_standard_encoding(b) == byte_chars(input) {
        Some(choose|b: Seq<u8>| #[trigger] base64_standard_encoding(b) == byte_chars(input))
    } else {
        None
    }
}

/// Length of padded base64 text for `n` input bytes, as the crate's
/// `encoded_len(n, true)` computes it.
pub open spec fn padded_encoded_len(n: nat) -> nat {
    if n % 3 == 0 {
        (n / 3) * 4
    } else {
        (n / 3) * 4 + 4
    }
}

/// Length of unpadded base64 text for `n` input bytes, as the crate's
/// `encoded_len(n, false)` computes it.
pub open spec fn unpadded_encoded_len(n: nat) -> nat {
    if n % 3 == 0 {
        (n / 3) * 4
    } else if n % 3 == 1 {
        (n / 3) * 4 + 2
    } else {
        (n / 3) * 4 + 3
    }
}

/// The length of base64 text: `padded_encoded_len` with padding,
/// `unpadded_encoded_len` without.
pub proof fn lemma_base64_text_len(input: Seq<u8>, url_safe: bool, padded: bool)
    ensures
        base64_text(input, url_safe, padded).len() == if padded {
            padded_encoded_len(input.len())
        } else {
            unpadded_encoded_len(input.len())
        },
    decreases input.len(),
{
    if input.len() >= 3 {
        lemma_base64_text_len(input.skip(3), url_safe, padded);
        let n = input.len();
        assert((n - 3) / 3 == n / 3 - 1 && (n - 3) % 3 == n % 3) by (nonlinear_arith)
            requires
                n >= 3,
        ;
    }
}

/// Padded base64 text of a byte count that is not a multiple of 3 ends in
/// `=`.
pub proof fn lemma_padded_text_ends_in_pad(input: Seq<u8>, url_safe: bool)
    requires
        input.len() % 3 != 0,
    ensures
        base64_text(input, url_safe, true).len() > 0,
        base64_text(input, url_safe, true).last() == '=',
    decreases input.len(),
{
    if input.len() >= 3 {
        lemma_padded_text_ends_in_pad(input.skip(3), url_safe);
    }
}

/// A standard base64 text that does not end in `=` decodes, where it
/// decodes at all, to three bytes for every four characters.
pub proof fn lemma_unpadded_decoding_len(input: Seq<u8>)
    requires
        base64_standard_decoding(input) is Some,
        input.len() == 0 || input.last() != 61u8,
    ensures
        base64_standard_decoding(input)->0.len() * 4 == input.len() * 3,
{
    let b = base64_standard_decoding(input)->0;
    assert(base64_standard_encoding(b) == byte_chars(input));
    lemma_base64_text_len(b, false, true);
    if b.len() % 3 != 0 {
        lemma_padded_text_ends_in_pad(b, false);
        assert(byte_chars(input).last() == '=');
        assert(byte_chars(input)[input.len() - 1] == (input[input.len() - 1] as char));
    }
}

/// Calls `STANDARD.decode(input)` of the `base64` crate. Claims the bytes of
/// the standard padded base64 text `input`; a decode error becomes `None`.
#[verifier::external_body]
pub(crate) fn base64_standard_decode(input: &[u8]) -> (r: Option<Vec<u8>>)
    ensures
        match r {
            Some(v) => base64_standard_decoding(input@) == Some(v@),
            None => base64_standard_decoding(input@) is None,
        },
{
    base64::engine::general_purpose::STANDARD.decode(input).ok()
}

/// Calls `STANDARD.encode(input)` of the `base64` crate. Claims the
/// standard padded base64 text; the crate panics when the length of that
/// text overflows `usize`, which `requires` rules out.
#[verifier::external_body]
pub(crate) fn base64_standard_encode(input: &[u8]) -> (r: String)
    requires
        (input@.len() / 3) * 4 + 4 <= usize::MAX,
    ensures
        r@ == base64_standard_encoding(input@),
{
    base64::engine::general_purpose::STANDARD.encode(input)
}

/// Calls `URL_SAFE_NO_PAD.encode(input)` of the `base64` crate. Claims the
/// URL-safe unpadded base64 text; the `requires` rules out the crate's panic
/// on a length that overflows `usize`.
#[verifier::external_body]
pub(crate) fn base64_url_nopad_encode(input: &[u8]) -> (r: String)
    requires
        (input@.len() / 3) * 4 + 4 <= usize::MAX,
    ensures
        r@ == base64_url_nopad_encoding(input@),
{
    base64::engine::general_purpose::URL_SAFE_NO_PAD.encode(input)
}

} // verus!
