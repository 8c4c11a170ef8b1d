use gobliso::choice::{ColorChoice, SizeChoice};
use gobliso::export::{letterbox, output_file_name, ExportError};
use gobliso::raster::Raster;
use gobliso::ui::App;

fn uniform(width: u32, height: u32, rgb: [u8; 3]) -> Raster {
    let mut bytes = Vec::new();
    for _ in 0..(width * height) {
        bytes.extend_from_slice(&rgb);
    }
    Raster::from_rgb_bytes(width, height, bytes).unwrap()
}

fn pixel(bytes: &[u8], width: u32, x: u32, y: u32) -> [u8; 3] {
    let i = 3 * (y * width + x) as usize;
    [bytes[i], bytes[i + 1], bytes[i + 2]]
}

#[test]
fn output_has_canvas_size_for_every_choice() {
    let src = uniform(4, 3, [10, 20, 30]);
    for (size, dims) in [
        (SizeChoice::Square, (1080, 1080)),
        (SizeChoice::Wide, (1080, 566)),
        (SizeChoice::Tall, (1080, 1350)),
    ] {
        let out = letterbox(&src, size, ColorChoice::White).unwrap();
        assert_eq!(out.dimensions(), dims);
        assert_eq!(size.dims(), dims);
    }
}

#[test]
fn bands_take_background_and_centre_takes_source() {
    // 2 x 1 onto 1080 x 1080: scaled to 1080 x 540, offset (0, 270).
    let src = uniform(2, 1, [200, 0, 0]);
    let out = letterbox(&src, SizeChoice::Square, ColorChoice::Black).unwrap();
    let bytes = out.into_rgb_bytes();
    assert_eq!(bytes.len(), 3 * 1080 * 1080);
    assert_eq!(pixel(&bytes, 1080, 0, 0), [0, 0, 0]);
    assert_eq!(pixel(&bytes, 1080, 1079, 269), [0, 0, 0]);
    assert_eq!(pixel(&bytes, 1080, 500, 810), [0, 0, 0]);
    assert_eq!(pixel(&bytes, 1080, 1079, 1079), [0, 0, 0]);
    assert_eq!(pixel(&bytes, 1080, 0, 270), [200, 0, 0]);
    assert_eq!(pixel(&bytes, 1080, 540, 540), [200, 0, 0]);
    assert_eq!(pixel(&bytes, 1080, 1079, 809), [200, 0, 0]);
}

#[test]
fn white_background_on_wide_canvas() {
    // 1 x 1 onto 1080 x 566: scaled to 566 x 566, offset (257, 0).
    let src = uniform(1, 1, [0, 0, 255]);
    let out = letterbox(&src, SizeChoice::Wide, ColorChoice::White).unwrap();
    let bytes = out.into_rgb_bytes();
    assert_eq!(pixel(&bytes, 1080, 256, 100), [255, 255, 255]);
    assert_eq!(pixel(&bytes, 1080, 257, 100), [0, 0, 255]);
    assert_eq!(pixel(&bytes, 1080, 822, 565), [0, 0, 255]);
    assert_eq!(pixel(&bytes, 1080, 823, 0), [255, 255, 255]);
}

#[test]
fn export_twice_gives_same_bytes() {
    let mut bytes = Vec::new();
    for i in 0..(5 * 7 * 3) {
        bytes.push((i * 37 % 256) as u8);
    }
    let src = Raster::from_rgb_bytes(5, 7, bytes).unwrap();
    let a = letterbox(&src, SizeChoice::Tall, ColorChoice::White).unwrap().into_rgb_bytes();
    let b = letterbox(&src, SizeChoice::Tall, ColorChoice::White).unwrap().into_rgb_bytes();
    assert_eq!(a.len(), 3 * 1080 * 1350);
    assert!(a == b);
}

#[test]
fn empty_source_is_refused() {
    let src = Raster::from_rgb_bytes(0, 5, Vec::new()).unwrap();
    assert_eq!(letterbox(&src, SizeChoice::Square, ColorChoice::White).err(), Some(ExportError::EmptySource));
}

#[test]
fn short_byte_buffer_is_refused() {
    assert!(Raster::from_rgb_bytes(2, 2, vec![0; 11]).is_none());
    assert!(Raster::from_rgb_bytes(2, 2, vec![0; 12]).is_some());
}

#[test]
fn raw_bytes_round_trip() {
    let bytes: Vec<u8> = (0..18).collect();
    let img = Raster::from_rgb_bytes(3, 2, bytes.clone()).unwrap();
    assert_eq!(img.dimensions(), (3, 2));
    assert_eq!(img.into_rgb_bytes(), bytes);
}

#[test]
fn file_name_gets_size_prefix() {
    assert_eq!(output_file_name("photo.png", SizeChoice::Square), "_1080x1080_photo.png");
    assert_eq!(output_file_name("a.jpg", SizeChoice::Wide), "_1080x566_a.jpg");
    assert_eq!(output_file_name("b", SizeChoice::Tall), "_1080x1350_b");
}

#[test]
fn app_exports_with_its_selections() {
    let mut app = App::new();
    app.click(20, 26);
    app.click(95, 26);
    let src = uniform(3, 3, [1, 2, 3]);
    let out = app.resize_image(&src).unwrap();
    assert_eq!(out.dimensions(), (1080, 566));
    let bytes = out.into_rgb_bytes();
    assert_eq!(pixel(&bytes, 1080, 0, 0), [0, 0, 0]);
    assert_eq!(pixel(&bytes, 1080, 540, 283), [1, 2, 3]);
    assert_eq!(app.output_file_name("x.gif"), "_1080x566_x.gif");
}
