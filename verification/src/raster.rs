//! Rendered pages as raw RGBA samples, and their inversion for dark reading.

use vstd::prelude::*;

verus! {

/// An image of `width` times `height` pixels, four samples to the pixel: red, green, blue
/// and alpha.
#[derive(Clone, Debug)]
pub struct Raster {
    pub width: u32,
    pub height: u32,
    pub samples: Vec<u8>,
}

/// Whether sample `i` of `count` is a colour sample of a complete pixel.
pub open spec fn is_color_sample(i: int, count: nat) -> bool {
    i % 4 != 3 && i / 4 < count / 4
}

/// The samples with every colour turned into its complement. Alpha samples, and samples
/// behind the last complete pixel, stay.
pub open spec fn inverted(samples: Seq<u8>) -> Seq<u8> {
    Seq::new(
        samples.len(),
        |i: int|
            if is_color_sample(i, samples.len()) {
                (255 - samples[i]) as u8
            } else {
                samples[i]
            },
    )
}

/// Turns every colour into its complement, in place.
pub fn invert_samples(samples: &mut Vec<u8>)
    ensures
        final(samples)@ == inverted(old(samples)@),
{
    let count = samples.len();
    let mut start: usize = 0;
    while count - start >= 4
        invariant
            count == samples.len(),
            count == old(samples)@.len(),
            start <= count,
            start % 4 == 0,
            forall|i: int| 0 <= i < start ==> samples@[i] == inverted(old(samples)@)[i],
            forall|i: int| start <= i < count ==> samples@[i] == old(samples)@[i],
        decreases count - start,
    {
        samples[start] = 255 - samples[start];
        samples[start + 1] = 255 - samples[start + 1];
        samples[start + 2] = 255 - samples[start + 2];
        start = start + 4;
    }
    assert(samples@ =~= inverted(old(samples)@));
}

/// The two images of a rendered page: as it is, and inverted.
pub fn raw_images(width: u32, height: u32, samples: Vec<u8>) -> (images: (Raster, Raster))
    ensures
        images.0.width == width,
        images.0.height == height,
        images.0.samples@ == samples@,
        images.1.width == width,
        images.1.height == height,
        images.1.samples@ == inverted(samples@),
{
    let mut other = samples.clone();
    assert(other@ =~= samples@);
    invert_samples(&mut other);
    (Raster { width, height, samples }, Raster { width, height, samples: other })
}

/// Inverting twice gives the image back.
pub proof fn inversion_is_an_involution(samples: Seq<u8>)
    ensures
        inverted(inverted(samples)) == samples,
{
    assert(inverted(inverted(samples)) =~= samples);
}

/// Inverting leaves the alpha of every pixel alone.
pub proof fn inversion_keeps_alpha(samples: Seq<u8>, pixel: int)
    requires
        0 <= pixel,
        4 * pixel + 3 < samples.len(),
    ensures
        inverted(samples)[4 * pixel + 3] == samples[4 * pixel + 3],
{
}

/// Every colour of a complete pixel becomes its complement, whatever the pixel's alpha. Alpha
/// stays, and so does what follows the last complete pixel.
pub proof fn every_colour_is_complemented(samples: &mut Vec<u8>, pixel: int, c: int)
    requires
        call_ensures(invert_samples, (samples,), ()),
    ensures
        final(samples)@.len() == old(samples)@.len(),
        0 <= pixel && 4 * pixel + 3 < old(samples)@.len() && 0 <= c < 3 ==> final(samples)@[4
            * pixel + c] == 255 - old(samples)@[4 * pixel + c],
        0 <= pixel && 4 * pixel + 3 < old(samples)@.len() ==> final(samples)@[4 * pixel + 3]
            == old(samples)@[4 * pixel + 3],
        forall|i: int|
            0 <= i < old(samples)@.len() && i >= 4 * (old(samples)@.len() / 4)
                ==> #[trigger] final(samples)@[i] == old(samples)@[i],
{
}

/// A sample and its inverted one add up to the full intensity, for each colour of each
/// complete pixel.
pub proof fn inversion_complements_colours(samples: Seq<u8>, pixel: int, c: int)
    requires
        0 <= pixel,
        4 * pixel + 3 < samples.len(),
        0 <= c < 3,
    ensures
        inverted(samples)[4 * pixel + c] + samples[4 * pixel + c] == 255,
{
}

/// Of the two images of a page the first has the samples as they were rendered, and the second
/// has the complement of every colour of every complete pixel.
pub proof fn two_images_of_a_page(
    width: u32,
    height: u32,
    samples: Vec<u8>,
    images: (Raster, Raster),
    pixel: int,
    c: int,
    i: int,
)
    requires
        call_ensures(raw_images, (width, height, samples), images),
    ensures
        images.0.width == width && images.0.height == height,
        images.1.width == width && images.1.height == height,
        images.0.samples@ == samples@,
        images.1.samples@.len() == samples@.len(),
        0 <= pixel && 4 * pixel + 3 < samples@.len() && 0 <= c < 3 ==> images.1.samples@[4 * pixel
            + c] == 255 - samples@[4 * pixel + c],
        0 <= pixel && 4 * pixel + 3 < samples@.len() ==> images.1.samples@[4 * pixel + 3]
            == samples@[4 * pixel + 3],
        4 * (samples@.len() / 4) <= i < samples@.len() ==> images.1.samples@[i] == samples@[i],
{
}

} // verus!
