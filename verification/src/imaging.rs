//! Image renditions, produced with the `image` crate.

use vstd::prelude::*;

verus! {

/// Whether `resize_image` succeeds for an encoded image `data` and a
/// bounding box of `width` by `height` pixels: it fails where the bytes do
/// not decode or the rendition does not encode.
pub uninterp spec fn avif_resizes(data: Seq<u8>, width: u32, height: u32) -> bool;

/// `b` begins as an AVIF file does: a `ftyp` box, its type in bytes 4 to
/// 7, whose major brand `avif` follows in bytes 8 to 11.
pub open spec fn is_avif_file(b: Seq<u8>) -> bool {
    &&& b.len() >= 12
    &&& b.subrange(4, 12) == seq![0x66u8, 0x74u8, 0x79u8, 0x70u8, 0x61u8, 0x76u8, 0x69u8, 0x66u8]
}

/// The big-endian number in the four bytes of `b` from position `i`.
pub open spec fn be32(b: Seq<u8>, i: int) -> int {
    b[i] as int * 0x1000000 + b[i + 1] as int * 0x10000 + b[i + 2] as int * 0x100 + b[i + 3] as int
}

/// Among the boxes laid end to end in `b` from `start` up to `end` (each
/// a four-byte size, counting its eight-byte header, then a four-byte
/// type), the first of type `ty`: where its content starts and where the
/// box ends.
pub open spec fn find_box(b: Seq<u8>, start: int, end: int, ty: Seq<u8>) -> Option<(int, int)>
    decreases end - start,
{
    if start < 0 || start + 8 > end || end > b.len() {
        None
    } else {
        let size = be32(b, start);
        if size < 8 || start + size > end {
            None
        } else if b.subrange(start + 4, start + 8) == ty {
            Some((start + 8, start + size))
        } else {
            find_box(b, start + size, end, ty)
        }
    }
}

/// The image size that an AVIF file records: the width and height of its
/// first `ispe` property, found under `meta`, `iprp` and `ipco`.
pub open spec fn avif_image_size(b: Seq<u8>) -> Option<(int, int)> {
    match find_box(b, 0, b.len() as int, seq![0x6du8, 0x65u8, 0x74u8, 0x61u8]) {
        Some((ms, me)) => match find_box(b, ms + 4, me, seq![0x69u8, 0x70u8, 0x72u8, 0x70u8]) {
            Some((ps, pe)) => match find_box(b, ps, pe, seq![0x69u8, 0x70u8, 0x63u8, 0x6fu8]) {
                Some((cs, ce)) => match find_box(
                    b,
                    cs,
                    ce,
                    seq![0x69u8, 0x73u8, 0x70u8, 0x65u8],
                ) {
                    Some((is, ie)) => if is + 12 <= ie {
                        Some((be32(b, is + 4), be32(b, is + 8)))
                    } else {
                        None
                    },
                    None => None,
                },
                None => None,
            },
            None => None,
        },
        None => None,
    }
}

/// An image of `w` by `h` pixels is what scaling to fit a `width` by
/// `height` box gives: it fits in the box and touches it on one side, or
/// it is the single pixel that an image without extent scales to.
pub open spec fn fits_box(w: int, h: int, width: u32, height: u32) -> bool {
    &&& 1 <= w <= width
    &&& 1 <= h <= height
    &&& (w == width || h == height || (w == 1 && h == 1))
}

/// `b` is an AVIF file of an image scaled to fit a `width` by `height`
/// box.
pub open spec fn is_rendition_in(b: Seq<u8>, width: u32, height: u32) -> bool {
    &&& is_avif_file(b)
    &&& avif_image_size(b) matches Some((w, h))
    &&& fits_box(w, h, width, height)
}

/// Decodes `data` with `image::load_from_memory`, scales it with
/// `DynamicImage::thumbnail` to fit within `width` by `height` keeping its
/// aspect ratio, and encodes the result with `DynamicImage::write_to` in
/// `ImageFormat::Avif`. The contract claims that whether this succeeds
/// is a function of the three arguments, named `avif_resizes`, and that
/// what comes back begins as an AVIF file: the encoder writes the file
/// that `avif-serialize` builds, whose first box is `ftyp` with the major
/// brand `avif`. For a box of at least one pixel each way, it also claims
/// the size that file records: `thumbnail` scales by the smaller of the
/// two ratios of box to image (`resize_dimensions` with `fill` false), so
/// the side with that ratio comes out equal to the box and the other
/// within it, each at least one pixel (an image without extent gives a
/// single pixel); `ravif` hands that size to `avif-serialize`, which
/// writes it as the first property, `ispe`, of `meta`/`iprp`/`ipco`. The
/// rest of the bytes is left unsaid: the AVIF encoder splits the image
/// into tiles by the number of threads of the machine, so the bytes
/// depend on the machine as well.
#[verifier::external_body]
pub fn resize_image(data: &[u8], width: u32, height: u32) -> (r: Option<Vec<u8>>)
    ensures
        r is Some == avif_resizes(data@, width, height),
        r matches Some(v) ==> is_avif_file(v@),
        r matches Some(v) ==> (width >= 1 && height >= 1 ==> is_rendition_in(v@, width, height)),
{
    let img = image::load_from_memory(data).ok()?;
    let mut buffer = std::io::Cursor::new(Vec::new());
    img.thumbnail(width, height).write_to(&mut buffer, image::ImageFormat::Avif).ok()?;
    Some(buffer.into_inner())
}

/// One AVIF file is not a rendition for two different boxes: an image
/// that fits one square box and touches it cannot touch a larger one, so
/// a file that passes for both is the single-pixel image.
pub proof fn law_renditions_of_different_boxes_differ(b: Seq<u8>, small: u32, large: u32)
    requires
        small < large,
        is_rendition_in(b, small, small),
        is_rendition_in(b, large, large),
    ensures
        avif_image_size(b) == Some((1int, 1int)),
{
}

} // verus!
