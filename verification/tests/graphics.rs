use fractal_bmp::fixed_point::Fixed;
use fractal_bmp::fractals::{FracOutput, Fractal, FractalType};
use fractal_bmp::graphics::bmp_img_maker::{decode_header, decode_pixel, BMPImg, PixelSource};
use fractal_bmp::graphics::color_mapping::FracOutput_to_Color;
use fractal_bmp::graphics::{Color, PixPos};
use fractal_bmp::my_complex::MyComplex;
use fractal_bmp::render::FracRenderer;

// Gray ramp: floor(500 * 255 / 1000) = 127 on every channel.
#[test]
fn gray_ramp_midpoint() {
    let c = FracOutput_to_Color(FracOutput::MandelJulia { iters: 500, max_iters: 1000 });
    assert_eq!(c, Color { r: 127, g: 127, b: 127 });
}

#[test]
fn gray_ramp_ends() {
    assert_eq!(
        FracOutput_to_Color(FracOutput::MandelJulia { iters: 0, max_iters: 1000 }),
        Color { r: 0, g: 0, b: 0 }
    );
    assert_eq!(
        FracOutput_to_Color(FracOutput::MandelJulia { iters: 1000, max_iters: 1000 }),
        Color { r: 255, g: 255, b: 255 }
    );
}

// The four-entry palette, and the neutral gray past its end.
#[test]
fn newton_palette() {
    let pick = |closest: usize| FracOutput_to_Color(FracOutput::Newton { closest, roots: 6 });
    assert_eq!(pick(0), Color { r: 255, g: 0, b: 0 });
    assert_eq!(pick(1), Color { r: 0, g: 255, b: 0 });
    assert_eq!(pick(2), Color { r: 0, g: 0, b: 255 });
    assert_eq!(pick(3), Color { r: 0, g: 255, b: 255 });
    assert_eq!(pick(4), Color { r: 30, g: 30, b: 30 });
    assert_eq!(pick(5), Color { r: 30, g: 30, b: 30 });
    assert_eq!(
        FracOutput_to_Color(FracOutput::Newton { closest: 2, roots: 3 }),
        Color { r: 0, g: 0, b: 255 }
    );
}

// The same classification result always maps to the same color.
#[test]
fn color_mapping_is_deterministic() {
    let val = FracOutput::MandelJulia { iters: 123, max_iters: 456 };
    assert_eq!(FracOutput_to_Color(val), FracOutput_to_Color(val));
}

// Header for a 2-by-2 image: padding (4 - 6 % 4) % 4 = 2, bitmap size
// 2 * (6 + 2) = 16, file size 70, and the header itself 54 bytes.
#[test]
fn header_for_two_by_two() {
    let img = BMPImg::new(2, 2, "tiny.bmp");
    let h = img.header_bytes();
    assert_eq!(h.len(), 54);
    assert_eq!(h[0], b'B');
    assert_eq!(h[1], b'M');
    assert_eq!(&h[2..6], &[70, 0, 0, 0]);
    assert_eq!(&h[6..10], &[0, 0, 0, 0]);
    assert_eq!(&h[10..14], &[0x36, 0, 0, 0]);
    assert_eq!(&h[14..18], &[40, 0, 0, 0]);
    assert_eq!(&h[18..22], &[2, 0, 0, 0]);
    assert_eq!(&h[22..26], &[2, 0, 0, 0]);
    assert_eq!(&h[26..28], &[1, 0]);
    assert_eq!(&h[28..30], &[24, 0]);
    assert_eq!(&h[30..34], &[0, 0, 0, 0]);
    assert_eq!(&h[34..38], &[16, 0, 0, 0]);
    assert_eq!(&h[38..42], &[0x13, 0x0B, 0, 0]);
    assert_eq!(&h[42..46], &[0x13, 0x0B, 0, 0]);
    assert_eq!(&h[46..54], &[0, 0, 0, 0, 0, 0, 0, 0]);
}

// A wide header: width 640, height 480, no padding; the size fields carry
// more than one significant byte.
#[test]
fn header_for_vga() {
    let img = BMPImg::new(640, 480, "vga.bmp");
    let h = img.header_bytes();
    // bitmap size = 480 * 1920 = 921_600 = 0x0E_1000; file size 921_654.
    assert_eq!(&h[2..6], &[0x36, 0x10, 0x0E, 0]);
    assert_eq!(&h[18..22], &[0x80, 0x02, 0, 0]);
    assert_eq!(&h[22..26], &[0xE0, 0x01, 0, 0]);
    assert_eq!(&h[34..38], &[0x00, 0x10, 0x0E, 0]);
}

// Round trip: rendering a small Mandelbrot image and reading the stream
// back recovers the dimensions and every pixel's color.
#[test]
fn round_trip_small_render() {
    let frac = Fractal::new(10_u32, FractalType::Mandelbrot());
    let rend = FracRenderer::new(
        frac,
        3,
        2,
        Fixed::from_int(-2),
        Fixed::from_int(4),
        Fixed::from_int(-2),
        Fixed::from_int(4),
    );
    let img = BMPImg::new(3, 2, "frac.bmp");
    let bytes = img.file_bytes(&rend);
    // stride = 9 + 3 padding = 12; file size = 54 + 2 * 12 = 78.
    assert_eq!(bytes.len(), 78);
    assert_eq!(decode_header(&bytes), Some((3, 2)));

    let pixels: Vec<u8> = bytes[54..].to_vec();
    for row in 0..2_u32 {
        for col in 0..3_u32 {
            let pos = PixPos { row, col };
            let expected = rend.color_at(pos);
            assert_eq!(decode_pixel(&pixels, 3, pos), Some(expected));
        }
    }
    // The padding bytes at each row boundary are zero.
    assert_eq!(&pixels[9..12], &[0, 0, 0]);
    assert_eq!(&pixels[21..24], &[0, 0, 0]);
}

// The decoders reject what does not hold a whole header or pixel.
#[test]
fn decoders_reject_short_streams() {
    let short: Vec<u8> = vec![0_u8; 10];
    assert_eq!(decode_header(&short), None);
    let mut not_bm: Vec<u8> = vec![0_u8; 54];
    assert_eq!(decode_header(&not_bm), None);
    not_bm[0] = b'B';
    not_bm[1] = b'M';
    assert!(decode_header(&not_bm).is_some());
    let pixels: Vec<u8> = vec![0_u8; 12];
    assert_eq!(decode_pixel(&pixels, 3, PixPos { row: 1, col: 0 }), None);
    assert!(decode_pixel(&pixels, 3, PixPos { row: 0, col: 2 }).is_some());
}

// The driver maps pixel (0, 0) to the rectangle's corner and colors it by
// the fractal's classification there.
#[test]
fn renderer_matches_direct_classification() {
    let frac = Fractal::new(50_u32, FractalType::Mandelbrot());
    let rend = FracRenderer::new(
        frac,
        4,
        4,
        Fixed::from_int(-2),
        Fixed::from_int(4),
        Fixed::from_int(-2),
        Fixed::from_int(4),
    );
    let corner = MyComplex::new(Fixed::from_int(-2), Fixed::from_int(-2));
    let frac_again = Fractal::new(50_u32, FractalType::Mandelbrot());
    let expected = FracOutput_to_Color(frac_again.complex_to_frac_output(corner));
    assert_eq!(rend.color_at(PixPos { row: 0, col: 0 }), expected);
}
