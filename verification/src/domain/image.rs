//! Recognition of common image formats by their leading magic bytes.

use vstd::prelude::*;
use vstd::string::*;

verus! {

/// `data` starts with the byte sequence `p`.
pub open spec fn has_prefix_at(data: Seq<u8>, offset: int, p: Seq<u8>) -> bool {
    &&& 0 <= offset
    &&& offset + p.len() <= data.len()
    &&& data.subrange(offset, offset + p.len()) == p
}

pub open spec fn jpeg_magic() -> Seq<u8> {
    seq![0xFFu8, 0xD8u8, 0xFFu8]
}

/// `\x89PNG\r\n\x1a\n`
pub open spec fn png_magic() -> Seq<u8> {
    seq![0x89u8, 0x50u8, 0x4Eu8, 0x47u8, 0x0Du8, 0x0Au8, 0x1Au8, 0x0Au8]
}

/// `GIF87a`
pub open spec fn gif87a_magic() -> Seq<u8> {
    seq![0x47u8, 0x49u8, 0x46u8, 0x38u8, 0x37u8, 0x61u8]
}

/// `GIF89a`
pub open spec fn gif89a_magic() -> Seq<u8> {
    seq![0x47u8, 0x49u8, 0x46u8, 0x38u8, 0x39u8, 0x61u8]
}

/// `RIFF`
pub open spec fn riff_magic() -> Seq<u8> {
    seq![0x52u8, 0x49u8, 0x46u8, 0x46u8]
}

/// `WEBP`
pub open spec fn webp_magic() -> Seq<u8> {
    seq![0x57u8, 0x45u8, 0x42u8, 0x50u8]
}

/// The MIME type that the leading bytes of `data` announce, checked in the
/// order JPEG, PNG, GIF (87a or 89a), WebP (`RIFF` container of `WEBP`).
pub open spec fn image_type_of(data: Seq<u8>) -> Option<Seq<char>> {
    if has_prefix_at(data, 0, jpeg_magic()) {
        Some("image/jpeg"@)
    } else if has_prefix_at(data, 0, png_magic()) {
        Some("image/png"@)
    } else if has_prefix_at(data, 0, gif87a_magic()) || has_prefix_at(data, 0, gif89a_magic()) {
        Some("image/gif"@)
    } else if data.len() >= 12 && has_prefix_at(data, 0, riff_magic()) && has_prefix_at(
        data,
        8,
        webp_magic(),
    ) {
        Some("image/webp"@)
    } else {
        None
    }
}

/// Byte-wise reading of a prefix test.
proof fn lemma_has_prefix_at(data: Seq<u8>, offset: int, p: Seq<u8>)
    ensures
        has_prefix_at(data, offset, p) <==> (0 <= offset && offset + p.len() <= data.len() && forall|
            k: int,
        | 0 <= k < p.len() ==> data[offset + k] == #[trigger] p[k]),
{
    if 0 <= offset && offset + p.len() <= data.len() && forall|k: int|
        0 <= k < p.len() ==> data[offset + k] == #[trigger] p[k] {
        assert(data.subrange(offset, offset + p.len()) =~= p);
    }
    if has_prefix_at(data, offset, p) {
        assert forall|k: int| 0 <= k < p.len() implies data[offset + k] == #[trigger] p[k] by {
            assert(data.subrange(offset, offset + p.len())[k] == data[offset + k]);
        }
    }
}

proof fn lemma_all_magics(data: Seq<u8>)
    ensures
        has_prefix_at(data, 0, jpeg_magic()) <==> (data.len() >= 3 && data[0] == 0xFFu8 && data[1]
            == 0xD8u8 && data[2] == 0xFFu8),
        has_prefix_at(data, 0, png_magic()) <==> (data.len() >= 8 && data[0] == 0x89u8 && data[1]
            == 0x50u8 && data[2] == 0x4Eu8 && data[3] == 0x47u8 && data[4] == 0x0Du8 && data[5]
            == 0x0Au8 && data[6] == 0x1Au8 && data[7] == 0x0Au8),
        has_prefix_at(data, 0, gif87a_magic()) <==> (data.len() >= 6 && data[0] == 0x47u8 && data[1]
            == 0x49u8 && data[2] == 0x46u8 && data[3] == 0x38u8 && data[4] == 0x37u8 && data[5]
            == 0x61u8),
        has_prefix_at(data, 0, gif89a_magic()) <==> (data.len() >= 6 && data[0] == 0x47u8 && data[1]
            == 0x49u8 && data[2] == 0x46u8 && data[3] == 0x38u8 && data[4] == 0x39u8 && data[5]
            == 0x61u8),
        has_prefix_at(data, 0, riff_magic()) <==> (data.len() >= 4 && data[0] == 0x52u8 && data[1]
            == 0x49u8 && data[2] == 0x46u8 && data[3] == 0x46u8),
        data.len() >= 12 ==> (has_prefix_at(data, 8, webp_magic()) <==> (data[8] == 0x57u8 && data[9]
            == 0x45u8 && data[10] == 0x42u8 && data[11] == 0x50u8)),
{
    lemma_has_prefix_at(data, 0, jpeg_magic());
    lemma_has_prefix_at(data, 0, png_magic());
    lemma_has_prefix_at(data, 0, gif87a_magic());
    lemma_has_prefix_at(data, 0, gif89a_magic());
    lemma_has_prefix_at(data, 0, riff_magic());
    lemma_has_prefix_at(data, 8, webp_magic());
    assert(jpeg_magic()[0] == 0xFFu8 && jpeg_magic()[1] == 0xD8u8 && jpeg_magic()[2] == 0xFFu8);
    assert(png_magic()[0] == 0x89u8 && png_magic()[1] == 0x50u8 && png_magic()[2] == 0x4Eu8
        && png_magic()[3] == 0x47u8 && png_magic()[4] == 0x0Du8 && png_magic()[5] == 0x0Au8
        && png_magic()[6] == 0x1Au8 && png_magic()[7] == 0x0Au8);
    assert(gif87a_magic()[0] == 0x47u8 && gif87a_magic()[1] == 0x49u8 && gif87a_magic()[2] == 0x46u8
        && gif87a_magic()[3] == 0x38u8 && gif87a_magic()[4] == 0x37u8 && gif87a_magic()[5] == 0x61u8);
    assert(gif89a_magic()[0] == 0x47u8 && gif89a_magic()[1] == 0x49u8 && gif89a_magic()[2] == 0x46u8
        && gif89a_magic()[3] == 0x38u8 && gif89a_magic()[4] == 0x39u8 && gif89a_magic()[5] == 0x61u8);
    assert(riff_magic()[0] == 0x52u8 && riff_magic()[1] == 0x49u8 && riff_magic()[2] == 0x46u8
        && riff_magic()[3] == 0x46u8);
    assert(webp_magic()[0] == 0x57u8 && webp_magic()[1] == 0x45u8 && webp_magic()[2] == 0x42u8
        && webp_magic()[3] == 0x50u8);
}

/// The four MIME types are pairwise different.
proof fn lemma_types_distinct()
    ensures
        "image/jpeg"@ != "image/png"@,
        "image/jpeg"@ != "image/gif"@,
        "image/jpeg"@ != "image/webp"@,
        "image/png"@ != "image/gif"@,
        "image/png"@ != "image/webp"@,
        "image/gif"@ != "image/webp"@,
{
    reveal_strlit("image/jpeg");
    reveal_strlit("image/png");
    reveal_strlit("image/gif");
    reveal_strlit("image/webp");
    assert("image/jpeg"@.len() != "image/png"@.len());
    assert("image/jpeg"@.len() != "image/gif"@.len());
    assert("image/jpeg"@[6] != "image/webp"@[6]);
    assert("image/png"@[6] != "image/gif"@[6]);
    assert("image/png"@.len() != "image/webp"@.len());
    assert("image/gif"@.len() != "image/webp"@.len());
}

/// Data that starts with the bytes `FF D8 FF` is a JPEG image, whatever
/// follows (JFIF, Exif or any other marker), and only such data is.
pub proof fn jpeg_is_recognised_by_its_first_three_bytes(data: Seq<u8>)
    ensures
        image_type_of(data) == Some("image/jpeg"@) <==> (data.len() >= 3 && data[0] == 0xFFu8
            && data[1] == 0xD8u8 && data[2] == 0xFFu8),
{
    lemma_all_magics(data);
    lemma_types_distinct();
}

/// Data that starts with the eight PNG signature bytes is a PNG image, and
/// only such data is.
pub proof fn png_is_recognised_by_its_signature(data: Seq<u8>)
    ensures
        image_type_of(data) == Some("image/png"@) <==> (data.len() >= 8 && data[0] == 0x89u8
            && data[1] == 0x50u8 && data[2] == 0x4Eu8 && data[3] == 0x47u8 && data[4] == 0x0Du8
            && data[5] == 0x0Au8 && data[6] == 0x1Au8 && data[7] == 0x0Au8),
{
    lemma_all_magics(data);
    lemma_types_distinct();
}

/// Data that starts with `GIF87a` or `GIF89a` is a GIF image, and only such
/// data is.
pub proof fn gif_is_recognised_by_its_signature(data: Seq<u8>)
    ensures
        image_type_of(data) == Some("image/gif"@) <==> (data.len() >= 6 && data[0] == 0x47u8
            && data[1] == 0x49u8 && data[2] == 0x46u8 && data[3] == 0x38u8 && (data[4] == 0x37u8
            || data[4] == 0x39u8) && data[5] == 0x61u8),
{
    lemma_all_magics(data);
    lemma_types_distinct();
}

/// Data of at least 12 bytes with `RIFF` at offset 0 and `WEBP` at offset 8
/// is a WebP image, and only such data is.
pub proof fn webp_is_recognised_by_its_container(data: Seq<u8>)
    ensures
        image_type_of(data) == Some("image/webp"@) <==> (data.len() >= 12 && data[0] == 0x52u8
            && data[1] == 0x49u8 && data[2] == 0x46u8 && data[3] == 0x46u8 && data[8] == 0x57u8
            && data[9] == 0x45u8 && data[10] == 0x42u8 && data[11] == 0x50u8),
{
    lemma_all_magics(data);
    lemma_types_distinct();
}

/// Every answer is one of the four image types, or none.
pub proof fn detected_types_are_the_four_image_types(data: Seq<u8>)
    ensures
        image_type_of(data) is None || image_type_of(data) == Some("image/jpeg"@) || image_type_of(
            data,
        ) == Some("image/png"@) || image_type_of(data) == Some("image/gif"@) || image_type_of(data)
            == Some("image/webp"@),
{
}

/// The returned option, read as the view of its string.
pub open spec fn opt_str_view(r: Option<&'static str>) -> Option<Seq<char>> {
    match r {
        Some(s) => Some(s@),
        None => None,
    }
}

fn bytes_at(data: &[u8], offset: usize, p: &[u8]) -> (r: bool)
    requires
        offset + p@.len() <= usize::MAX,
    ensures
        r == has_prefix_at(data@, offset as int, p@),
{
    if offset > data.len() || p.len() > data.len() - offset {
        return false;
    }
    let mut i: usize = 0;
    while i < p.len()
        invariant
            offset + p@.len() <= data@.len(),
            data@.len() == data.len(),
            i <= p@.len(),
            forall|j: int| 0 <= j < i ==> data@[offset + j] == p@[j],
        decreases p@.len() - i,
    {
        if data[offset + i] != p[i] {
            assert(data@.subrange(offset as int, offset + p@.len())[i as int] != p@[i as int]);
            return false;
        }
        i = i + 1;
    }
    assert(data@.subrange(offset as int, offset + p@.len()) =~= p@);
    true
}

/// Detects common image content types by inspecting magic bytes and returns
/// the MIME type (`image/jpeg`, `image/png`, `image/gif` or `image/webp`).
pub fn detect_image_type(data: &[u8]) -> (r: Option<&'static str>)
    ensures
        opt_str_view(r) == image_type_of(data@),
{
    let jpeg: [u8; 3] = [0xFF, 0xD8, 0xFF];
    let png: [u8; 8] = [0x89, 0x50, 0x4E, 0x47, 0x0D, 0x0A, 0x1A, 0x0A];
    let gif87a: [u8; 6] = [0x47, 0x49, 0x46, 0x38, 0x37, 0x61];
    let gif89a: [u8; 6] = [0x47, 0x49, 0x46, 0x38, 0x39, 0x61];
    let riff: [u8; 4] = [0x52, 0x49, 0x46, 0x46];
    let webp: [u8; 4] = [0x57, 0x45, 0x42, 0x50];
    assert(jpeg@ =~= jpeg_magic());
    assert(png@ =~= png_magic());
    assert(gif87a@ =~= gif87a_magic());
    assert(gif89a@ =~= gif89a_magic());
    assert(riff@ =~= riff_magic());
    assert(webp@ =~= webp_magic());
    if bytes_at(data, 0, jpeg.as_slice()) {
        return Some("image/jpeg");
    }
    if bytes_at(data, 0, png.as_slice()) {
        return Some("image/png");
    }
    if bytes_at(data, 0, gif87a.as_slice()) || bytes_at(data, 0, gif89a.as_slice()) {
        return Some("image/gif");
    }
    if data.len() >= 12 && bytes_at(data, 0, riff.as_slice()) && bytes_at(data, 8, webp.as_slice()) {
        return Some("image/webp");
    }
    None
}

} // verus!
