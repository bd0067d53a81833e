use ray_tracer::color::ColorRGB;
use ray_tracer::texture::ImageTexture;

#[test]
fn single_red_pixel_everywhere() {
    let red = ColorRGB::new(255, 0, 0);
    let tex = ImageTexture::new(1, 1, vec![red]).unwrap();
    for (x, y) in [(0usize, 0usize), (1, 0), (0, 9), (1000, 1000)] {
        assert_eq!(tex.pixel_at(x, y), red);
    }
}

#[test]
fn new_rejects_wrong_pixel_count() {
    let px = vec![ColorRGB::new(0, 0, 0); 3];
    assert!(ImageTexture::new(2, 2, px).is_none());
}

#[test]
fn new_rejects_empty_dimensions() {
    assert!(ImageTexture::new(0, 1, vec![]).is_none());
    assert!(ImageTexture::new(1, 0, vec![]).is_none());
}

#[test]
fn pixel_at_reads_row_major_and_clamps() {
    let c00 = ColorRGB::new(1, 0, 0);
    let c10 = ColorRGB::new(2, 0, 0);
    let c01 = ColorRGB::new(3, 0, 0);
    let c11 = ColorRGB::new(4, 0, 0);
    let tex = ImageTexture::new(2, 2, vec![c00, c10, c01, c11]).unwrap();
    assert_eq!(tex.pixel_at(0, 0), c00);
    assert_eq!(tex.pixel_at(1, 0), c10);
    assert_eq!(tex.pixel_at(0, 1), c01);
    assert_eq!(tex.pixel_at(1, 1), c11);
    // out-of-range indices clamp to the last column and row
    assert_eq!(tex.pixel_at(9, 0), c10);
    assert_eq!(tex.pixel_at(0, 9), c01);
    assert_eq!(tex.pixel_at(9, 9), c11);
}

#[test]
fn dimension_accessors() {
    let px = vec![ColorRGB::new(0, 0, 0); 6];
    let tex = ImageTexture::new(3, 2, px).unwrap();
    assert_eq!(tex.width(), 3);
    assert_eq!(tex.height(), 2);
}
