use ray_tracer::color::ColorRGB;
use ray_tracer::image::{PPMImg, PPMImgMagicNum};

#[test]
fn max_component_tracks_writes() {
    let mut img: PPMImg<2, 2> = PPMImg::new(PPMImgMagicNum::P3);
    assert_eq!(img.max_color_component, 0);

    img.set_pixel_color(0, 0, ColorRGB::new(0, 0, 0));
    assert_eq!(img.max_color_component, 0);

    img.set_pixel_color(0, 1, ColorRGB::new(10, 20, 5));
    assert_eq!(img.max_color_component, 21);

    img.set_pixel_color(1, 0, ColorRGB::new(10, 0, 0));
    assert_eq!(img.max_color_component, 22);

    img.set_pixel_color(1, 1, ColorRGB::new(255, 0, 0));
    assert_eq!(img.max_color_component, 255);

    img.set_pixel_color(0, 0, ColorRGB::new(1, 1, 1));
    assert_eq!(img.max_color_component, 255);
}

#[test]
fn pixels_are_stored_row_major() {
    let mut img: PPMImg<3, 2> = PPMImg::new(PPMImgMagicNum::P3);
    img.set_pixel_color(1, 2, ColorRGB::new(9, 8, 7));
    assert_eq!(img.data_buffer[5], ColorRGB::new(9, 8, 7));
    assert_eq!(img.data_buffer[0], ColorRGB::new(0, 0, 0));
}

#[test]
fn ppm_p3_bytes_exact() {
    let mut img: PPMImg<2, 1> = PPMImg::new(PPMImgMagicNum::P3);
    img.set_pixel_color(0, 0, ColorRGB::new(0, 0, 0));
    img.set_pixel_color(0, 1, ColorRGB::new(1, 2, 3));
    let bytes = img.ppm_bytes();
    assert_eq!(bytes, b"P3\n2 1\n4\n0 0 0\n1 2 3\n".to_vec());
}

#[test]
fn ppm_p6_bytes_exact() {
    let mut img: PPMImg<1, 2> = PPMImg::new(PPMImgMagicNum::P6);
    img.set_pixel_color(0, 0, ColorRGB::new(200, 100, 50));
    img.set_pixel_color(1, 0, ColorRGB::new(5, 6, 7));
    let bytes = img.ppm_bytes();
    let mut expected = b"P6\n1 2\n202\n".to_vec();
    expected.extend_from_slice(&[200, 100, 50, 5, 6, 7]);
    assert_eq!(bytes, expected);
}

#[test]
fn ppm_header_multi_digit_dimensions() {
    let img: PPMImg<12, 255> = PPMImg::new(PPMImgMagicNum::P3);
    let bytes = img.ppm_bytes();
    assert!(bytes.starts_with(b"P3\n12 255\n0\n"));
    assert!(bytes.ends_with(b"0 0 0\n"));
    // header plus one six-byte line per zero pixel
    assert_eq!(bytes.len(), 12 + 6 * 12 * 255);
}
