use cosmic_reader::raster::{invert_samples, raw_images};

#[test]
fn colours_become_their_complement_and_alpha_stays() {
    let mut samples = vec![0, 10, 255, 77, 1, 2, 3, 4];
    invert_samples(&mut samples);
    assert_eq!(samples, vec![255, 245, 0, 77, 254, 253, 252, 4]);
}

#[test]
fn samples_behind_the_last_pixel_stay() {
    let mut samples = vec![0, 0, 0, 0, 5, 6, 7];
    invert_samples(&mut samples);
    assert_eq!(samples, vec![255, 255, 255, 0, 5, 6, 7]);
    let mut few = vec![9, 8, 7];
    invert_samples(&mut few);
    assert_eq!(few, vec![9, 8, 7]);
    let mut none: Vec<u8> = vec![];
    invert_samples(&mut none);
    assert!(none.is_empty());
}

#[test]
fn inverting_twice_gives_the_image_back() {
    let samples: Vec<u8> = (0..=255).collect();
    let mut twice = samples.clone();
    invert_samples(&mut twice);
    assert_ne!(twice, samples);
    invert_samples(&mut twice);
    assert_eq!(twice, samples);
}

#[test]
fn a_page_has_both_images() {
    let (normal, inverted) = raw_images(2, 1, vec![1, 2, 3, 4, 250, 251, 252, 253]);
    assert_eq!((normal.width, normal.height), (2, 1));
    assert_eq!((inverted.width, inverted.height), (2, 1));
    assert_eq!(normal.samples, vec![1, 2, 3, 4, 250, 251, 252, 253]);
    assert_eq!(inverted.samples, vec![254, 253, 252, 4, 5, 4, 3, 253]);
}
