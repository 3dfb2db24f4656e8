//! Row-level pixel swizzles, done by the `garb` crate: swapping blue and red, filling alpha, and
//! expanding RGB, gray and gray-alpha rows to BGRA.
use vstd::prelude::*;

verus! {

#[verifier::external_type_specification]
#[verifier::external_body]
pub struct ExSizeError(garb::SizeError);

/// The index that byte `i` of a row of 4-byte pixels takes its value from when blue and red
/// (bytes 0 and 2 of each pixel) are exchanged.
pub open spec fn br_source(i: int) -> int {
    if i % 4 == 0 { i + 2 } else if i % 4 == 2 { i - 2 } else { i }
}

/// `after` is `before` with bytes 0 and 2 of every 4-byte pixel exchanged.
pub open spec fn br_swapped(after: Seq<u8>, before: Seq<u8>) -> bool {
    &&& after.len() == before.len()
    &&& forall|i: int| 0 <= i < before.len() ==> #[trigger] after[i] == before[br_source(i)]
}

/// The first `n` 4-byte pixels of `after` are the 4-byte pixels of `src` with blue and red
/// exchanged; the rest of `after` is `before`.
pub open spec fn br_copied(after: Seq<u8>, before: Seq<u8>, src: Seq<u8>) -> bool {
    &&& after.len() == before.len()
    &&& forall|i: int| 0 <= i < before.len() ==> #[trigger] after[i] == (if i < src.len() { src[br_source(i)] } else { before[i] })
}

/// `after` is `before` with byte 3 of every 4-byte pixel set to 255.
pub open spec fn alpha_filled(after: Seq<u8>, before: Seq<u8>) -> bool {
    &&& after.len() == before.len()
    &&& forall|i: int| 0 <= i < before.len() ==> #[trigger] after[i] == (if i % 4 == 3 { 255u8 } else { before[i] })
}

/// The 4-byte pixel `p` of an expansion of `src` whose source pixels have `bpp` bytes: byte `c`
/// of output pixel `p`. RGB becomes B, G, R, 255; gray becomes v, v, v, 255; gray-alpha becomes
/// v, v, v, a.
pub open spec fn expanded_byte(src: Seq<u8>, bpp: int, p: int, c: int) -> u8 {
    if bpp == 3 {
        if c == 3 { 255u8 } else { src[p * 3 + 2 - c] }
    } else if bpp == 1 {
        if c == 3 { 255u8 } else { src[p] }
    } else {
        if c == 3 { src[p * 2 + 1] } else { src[p * 2] }
    }
}

/// `after` holds, pixel after pixel, the BGRA expansion of the `bpp`-byte pixels of `src`; the
/// rest of `after` is `before`.
pub open spec fn expanded_into(after: Seq<u8>, before: Seq<u8>, src: Seq<u8>, bpp: int) -> bool {
    &&& after.len() == before.len()
    &&& forall|i: int| 0 <= i < before.len() ==> #[trigger] after[i] == (if i < (src.len() as int / bpp) * 4 {
            expanded_byte(src, bpp, i / 4, i % 4)
        } else {
            before[i]
        })
}

/// Calls `garb::bytes::rgba_to_bgra_inplace`: on a non-empty buffer of whole 4-byte pixels it
/// exchanges bytes 0 and 2 of every pixel (on little-endian targets, where its scalar path packs
/// pixels into native-endian words); any other buffer is refused and left as it is.
#[verifier::external_body]
fn garb_rgba_to_bgra_inplace(buf: &mut [u8]) -> (r: Result<(), garb::SizeError>)
    ensures
        r is Ok <==> (old(buf)@.len() > 0 && old(buf)@.len() % 4 == 0),
        r is Ok ==> br_swapped(final(buf)@, old(buf)@),
        r is Err ==> final(buf)@ == old(buf)@,
{
    garb::bytes::rgba_to_bgra_inplace(buf)
}

/// Calls `garb::bytes::rgba_to_bgra`: for a non-empty source of whole 4-byte pixels and a
/// destination at least as long, it writes each source pixel with bytes 0 and 2 exchanged into
/// the same place of the destination and leaves the rest of the destination as it is (on
/// little-endian targets); other lengths are refused and nothing is written.
#[verifier::external_body]
fn garb_rgba_to_bgra(src: &[u8], dst: &mut [u8]) -> (r: Result<(), garb::SizeError>)
    ensures
        r is Ok <==> (src@.len() > 0 && src@.len() % 4 == 0 && old(dst)@.len() >= src@.len()),
        r is Ok ==> br_copied(final(dst)@, old(dst)@, src@),
        r is Err ==> final(dst)@ == old(dst)@,
{
    garb::bytes::rgba_to_bgra(src, dst)
}

/// Calls `garb::bytes::fill_alpha_bgra`: on a non-empty buffer of whole 4-byte pixels it sets
/// byte 3 of every pixel to 255; any other buffer is refused and left as it is.
#[verifier::external_body]
fn garb_fill_alpha_bgra(buf: &mut [u8]) -> (r: Result<(), garb::SizeError>)
    ensures
        r is Ok <==> (old(buf)@.len() > 0 && old(buf)@.len() % 4 == 0),
        r is Ok ==> alpha_filled(final(buf)@, old(buf)@),
        r is Err ==> final(buf)@ == old(buf)@,
{
    garb::bytes::fill_alpha_bgra(buf)
}

/// Calls `garb::bytes::rgb_to_bgra`: for a non-empty source of whole 3-byte pixels and room for
/// as many 4-byte pixels, it writes each RGB pixel as B, G, R, 255 into the destination and
/// leaves the rest of it as it is; other lengths are refused and nothing is written.
#[verifier::external_body]
fn garb_rgb_to_bgra(src: &[u8], dst: &mut [u8]) -> (r: Result<(), garb::SizeError>)
    ensures
        r is Ok <==> (src@.len() > 0 && src@.len() % 3 == 0 && old(dst)@.len() >= (src@.len() / 3) * 4),
        r is Ok ==> expanded_into(final(dst)@, old(dst)@, src@, 3),
        r is Err ==> final(dst)@ == old(dst)@,
{
    garb::bytes::rgb_to_bgra(src, dst)
}

/// Calls `garb::bytes::gray_to_bgra`: for a non-empty source and room for as many 4-byte pixels,
/// it writes each gray byte `v` as v, v, v, 255 into the destination and leaves the rest of it as
/// it is; other lengths are refused and nothing is written.
#[verifier::external_body]
fn garb_gray_to_bgra(src: &[u8], dst: &mut [u8]) -> (r: Result<(), garb::SizeError>)
    ensures
        r is Ok <==> (src@.len() > 0 && old(dst)@.len() >= src@.len() * 4),
        r is Ok ==> expanded_into(final(dst)@, old(dst)@, src@, 1),
        r is Err ==> final(dst)@ == old(dst)@,
{
    garb::bytes::gray_to_bgra(src, dst)
}

/// Calls `garb::bytes::gray_alpha_to_bgra`: for a non-empty source of whole 2-byte pixels and
/// room for as many 4-byte pixels, it writes each pixel `v, a` as v, v, v, a into the destination
/// and leaves the rest of it as it is; other lengths are refused and nothing is written.
#[verifier::external_body]
fn garb_gray_alpha_to_bgra(src: &[u8], dst: &mut [u8]) -> (r: Result<(), garb::SizeError>)
    ensures
        r is Ok <==> (src@.len() > 0 && src@.len() % 2 == 0 && old(dst)@.len() >= (src@.len() / 2) * 4),
        r is Ok ==> expanded_into(final(dst)@, old(dst)@, src@, 2),
        r is Err ==> final(dst)@ == old(dst)@,
{
    garb::bytes::gray_alpha_to_bgra(src, dst)
}

/// Position `i` of a buffer whose rows start every `stride` bytes lies within the first
/// `row_bytes` bytes of one of its first `h` rows.
pub open spec fn in_rows(i: int, stride: int, h: int, row_bytes: int) -> bool {
    row_bytes > 0 && 0 <= i && i / stride < h && i % stride < row_bytes
}

/// `after` is `before` with bytes 0 and 2 of every 4-byte pixel of the first `w` pixels of the
/// first `h` rows (rows `stride` bytes apart) exchanged; every other byte is unchanged.
pub open spec fn strided_swapped(after: Seq<u8>, before: Seq<u8>, w: int, h: int, stride: int) -> bool {
    &&& after.len() == before.len()
    &&& forall|i: int| 0 <= i < before.len() ==> #[trigger] after[i] == (if in_rows(i, stride, h, w * 4) {
            before[i - i % stride + br_source(i % stride)]
        } else {
            before[i]
        })
}

/// Calls `garb::bytes::rgba_to_bgra_inplace_strided`: when there is at least one row of at least
/// one pixel, a row of `width` 4-byte pixels fits in `stride` bytes and the last row ends within
/// the buffer, it exchanges bytes 0 and 2 of every pixel of every row (on little-endian targets,
/// where its scalar path packs pixels into native-endian words), never touching the bytes
/// between rows; any other shape is refused and the buffer is left as it is.
#[verifier::external_body]
pub(crate) fn garb_rgba_to_bgra_inplace_strided(buf: &mut [u8], width: usize, height: usize, stride: usize)
    -> (r: Result<(), garb::SizeError>)
    ensures
        r is Ok <==> (width > 0 && height > 0 && width * 4 <= stride
            && (height - 1) * stride + width * 4 <= old(buf)@.len()),
        r is Ok ==> strided_swapped(final(buf)@, old(buf)@, width as int, height as int, stride as int),
        r is Err ==> final(buf)@ == old(buf)@,
{
    garb::bytes::rgba_to_bgra_inplace_strided(buf, width, height, stride)
}

/// Calls `garb::bytes::bgra_to_rgba_inplace_strided`, which forwards to
/// `rgba_to_bgra_inplace_strided`: the same exchange of bytes 0 and 2 of every pixel of every
/// row, under the same conditions, as `garb_rgba_to_bgra_inplace_strided` states.
#[verifier::external_body]
pub(crate) fn garb_bgra_to_rgba_inplace_strided(buf: &mut [u8], width: usize, height: usize, stride: usize)
    -> (r: Result<(), garb::SizeError>)
    ensures
        r is Ok <==> (width > 0 && height > 0 && width * 4 <= stride
            && (height - 1) * stride + width * 4 <= old(buf)@.len()),
        r is Ok ==> strided_swapped(final(buf)@, old(buf)@, width as int, height as int, stride as int),
        r is Err ==> final(buf)@ == old(buf)@,
{
    garb::bytes::bgra_to_rgba_inplace_strided(buf, width, height, stride)
}

/// `after` is `before` with byte 3 of every 4-byte pixel of the first `w` pixels of the first
/// `h` rows (rows `stride` bytes apart) set to 255; every other byte is unchanged.
pub open spec fn strided_alpha_filled(after: Seq<u8>, before: Seq<u8>, w: int, h: int, stride: int) -> bool {
    &&& after.len() == before.len()
    &&& forall|i: int| 0 <= i < before.len() ==> #[trigger] after[i] == (if in_rows(i, stride, h, w * 4) && (i % stride) % 4 == 3 {
            255u8
        } else {
            before[i]
        })
}

/// Calls `garb::bytes::fill_alpha_rgba_strided`: when there is at least one row of at least one
/// pixel, a row of `width` 4-byte pixels fits in `stride` bytes and the last row ends within the
/// buffer, it sets byte 3 of every pixel of every row to 255 (on little-endian targets, where its
/// vector paths or in a native-endian word), never touching the bytes between rows; any other
/// shape is refused and the buffer is left as it is.
#[verifier::external_body]
pub(crate) fn garb_fill_alpha_rgba_strided(buf: &mut [u8], width: usize, height: usize, stride: usize)
    -> (r: Result<(), garb::SizeError>)
    ensures
        r is Ok <==> (width > 0 && height > 0 && width * 4 <= stride
            && (height - 1) * stride + width * 4 <= old(buf)@.len()),
        r is Ok ==> strided_alpha_filled(final(buf)@, old(buf)@, width as int, height as int, stride as int),
        r is Err ==> final(buf)@ == old(buf)@,
{
    garb::bytes::fill_alpha_rgba_strided(buf, width, height, stride)
}

/// Calls `garb::bytes::fill_alpha_bgra_strided`, which forwards to `fill_alpha_rgba_strided`:
/// the same filling of byte 3, under the same conditions, as `garb_fill_alpha_rgba_strided`
/// states.
#[verifier::external_body]
pub(crate) fn garb_fill_alpha_bgra_strided(buf: &mut [u8], width: usize, height: usize, stride: usize)
    -> (r: Result<(), garb::SizeError>)
    ensures
        r is Ok <==> (width > 0 && height > 0 && width * 4 <= stride
            && (height - 1) * stride + width * 4 <= old(buf)@.len()),
        r is Ok ==> strided_alpha_filled(final(buf)@, old(buf)@, width as int, height as int, stride as int),
        r is Err ==> final(buf)@ == old(buf)@,
{
    garb::bytes::fill_alpha_bgra_strided(buf, width, height, stride)
}

/// Swaps blue and red in place in a row of BGRA (or RGBA) pixels.
pub fn swap_br_inplace(row: &mut [u8])
    requires
        old(row)@.len() > 0,
        old(row)@.len() % 4 == 0,
    ensures
        br_swapped(final(row)@, old(row)@),
{
    let _ = garb_rgba_to_bgra_inplace(row);
}

/// Copies a row of pixels, swapping blue and red (BGRA to RGBA and back).
pub fn copy_swap_br(src: &[u8], dst: &mut [u8])
    requires
        src@.len() > 0,
        src@.len() % 4 == 0,
        old(dst)@.len() == src@.len(),
    ensures
        final(dst)@.len() == src@.len(),
        forall|i: int| 0 <= i < src@.len() ==> #[trigger] final(dst)@[i] == src@[br_source(i)],
{
    let _ = garb_rgba_to_bgra(src, dst);
}

/// Sets the alpha of every BGRA pixel of a row to 255.
pub fn set_alpha_to_255(row: &mut [u8])
    requires
        old(row)@.len() > 0,
        old(row)@.len() % 4 == 0,
    ensures
        alpha_filled(final(row)@, old(row)@),
{
    let _ = garb_fill_alpha_bgra(row);
}

/// Expands a row of RGB pixels to BGRA, with alpha 255.
pub fn rgb_to_bgra(src: &[u8], dst: &mut [u8])
    requires
        src@.len() > 0,
        src@.len() % 3 == 0,
        old(dst)@.len() == (src@.len() / 3) * 4,
    ensures
        final(dst)@.len() == old(dst)@.len(),
        forall|i: int| 0 <= i < old(dst)@.len() ==> #[trigger] final(dst)@[i] == expanded_byte(src@, 3, i / 4, i % 4),
{
    let _ = garb_rgb_to_bgra(src, dst);
}

/// Expands a row of gray pixels to BGRA: each gray value in blue, green and red, alpha 255.
pub fn gray_to_bgra(src: &[u8], dst: &mut [u8])
    requires
        src@.len() > 0,
        old(dst)@.len() == src@.len() * 4,
    ensures
        final(dst)@.len() == old(dst)@.len(),
        forall|i: int| 0 <= i < old(dst)@.len() ==> #[trigger] final(dst)@[i] == expanded_byte(src@, 1, i / 4, i % 4),
{
    let _ = garb_gray_to_bgra(src, dst);
}

/// Expands a row of gray-alpha pixels to BGRA: the gray value in blue, green and red.
pub fn gray_alpha_to_bgra(src: &[u8], dst: &mut [u8])
    requires
        src@.len() > 0,
        src@.len() % 2 == 0,
        old(dst)@.len() == (src@.len() / 2) * 4,
    ensures
        final(dst)@.len() == old(dst)@.len(),
        forall|i: int| 0 <= i < old(dst)@.len() ==> #[trigger] final(dst)@[i] == expanded_byte(src@, 2, i / 4, i % 4),
{
    let _ = garb_gray_alpha_to_bgra(src, dst);
}

} // verus!

verus! {

/// Exchanging blue and red is its own inverse: done twice, a row of whole 4-byte pixels comes
/// back unchanged (BGRA to RGBA and back).
pub proof fn lemma_swap_br_twice(original: Seq<u8>, once: Seq<u8>, twice: Seq<u8>)
    requires
        original.len() % 4 == 0,
        br_swapped(once, original),
        br_swapped(twice, once),
    ensures
        twice == original,
{
    assert forall|i: int| 0 <= i < original.len() implies #[trigger] twice[i] == original[i] by {
        assert(0 <= br_source(i) < original.len());
        assert(br_source(br_source(i)) == i);
    }
    assert(twice =~= original);
}

} // verus!
