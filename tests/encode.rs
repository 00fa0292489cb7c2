use avif_converter::color::{rgb_to_10_bit_ycbcr, rgb_to_8_bit_ycbcr, rgb_to_ycbcr};
use avif_converter::encoder::{Encoder, SourceBitmap};
use avif_converter::error::Error;
use avif_converter::pixel::{Rgb8, Rgba8};
use avif_converter::quality::quality_to_quantizer;
use avif_converter::scan::is_opaque;
use avif_converter::speed::SpeedTweaks;
use rav1e::prelude::PixelRange;

fn red_bitmap(width: usize, height: usize) -> SourceBitmap {
    SourceBitmap {
        width,
        height,
        pixels: vec![Rgba8::new(255, 0, 0, 255); width * height],
        has_alpha: true,
    }
}

fn encoder_q70_s4_d10() -> Encoder {
    Encoder::new()
        .with_num_threads(1)
        .with_quality(70)
        .unwrap()
        .with_alpha_quality(70)
        .unwrap()
        .with_speed(4)
        .unwrap()
        .with_bit_depth(10)
        .unwrap()
}

fn alpha_run(n: usize, transparent_at: Option<usize>) -> Vec<Rgba8> {
    (0..n)
        .map(|i| {
            let a = if Some(i) == transparent_at { 7 } else { 255 };
            Rgba8::new(1, 2, 3, a)
        })
        .collect()
}

#[test]
fn scan_edge_sizes_match_naive_scan() {
    for n in [0usize, 1, 31, 32, 33, 64, 65, 100] {
        let all = alpha_run(n, None);
        assert!(is_opaque(&all), "size {n}");
        for k in 0..n {
            let one = alpha_run(n, Some(k));
            assert_eq!(is_opaque(&one), one.iter().all(|p| p.a == 255), "size {n}, at {k}");
            assert!(!is_opaque(&one));
        }
    }
}

#[test]
fn scan_pseudo_random_alpha() {
    let mut state: u32 = 12345;
    for n in 0..200usize {
        let pixels: Vec<Rgba8> = (0..n)
            .map(|_| {
                state = state.wrapping_mul(1103515245).wrapping_add(12345);
                let a = if (state >> 16) % 50 == 0 { (state >> 8) as u8 } else { 255 };
                Rgba8::new(0, 0, 0, a)
            })
            .collect();
        assert_eq!(is_opaque(&pixels), pixels.iter().all(|p| p.a == 255));
    }
}

#[test]
fn quantizer_values_and_monotonicity() {
    assert_eq!(quality_to_quantizer(100), 0);
    assert_eq!(quality_to_quantizer(1), 252);
    assert_eq!(quality_to_quantizer(0), 255);
    assert_eq!(quality_to_quantizer(80), 121);
    assert_eq!(quality_to_quantizer(55), 153);
    assert_eq!(quality_to_quantizer(70), 134);
    assert_eq!(quality_to_quantizer(85), 115);
    assert_eq!(quality_to_quantizer(90), 77);
    assert_eq!(quality_to_quantizer(25), 191);
    assert_eq!(quality_to_quantizer(26), 190);
    for q in 1..100u8 {
        assert!(quality_to_quantizer(q) >= quality_to_quantizer(q + 1));
    }
}

#[test]
fn ycbcr_exact_values() {
    assert_eq!(rgb_to_8_bit_ycbcr(Rgb8::new(0, 0, 0)), [0, 128, 128]);
    assert_eq!(rgb_to_8_bit_ycbcr(Rgb8::new(255, 255, 255)), [255, 128, 128]);
    assert_eq!(rgb_to_8_bit_ycbcr(Rgb8::new(255, 0, 0)), [76, 85, 255]);
    assert_eq!(rgb_to_10_bit_ycbcr(Rgb8::new(0, 0, 0)), [0, 512, 512]);
    assert_eq!(rgb_to_10_bit_ycbcr(Rgb8::new(255, 255, 255)), [1023, 512, 512]);
    assert_eq!(rgb_to_ycbcr(Rgb8::new(0, 0, 255), 8), [29, 255, 107]);
}

fn inverse(y: i32, cb: i32, cr: i32) -> [i32; 3] {
    let r = 1000 * y + 1402 * (cr - 128);
    let g = 587000 * y - 202008 * (cb - 128) - 419198 * (cr - 128);
    let b = 1000 * y + 1772 * (cb - 128);
    [
        (2 * r + 1000).div_euclid(2000),
        (2 * g as i64 + 587000).div_euclid(1174000) as i32,
        (2 * b + 1000).div_euclid(2000),
    ]
}

#[test]
fn ycbcr_round_trip_within_one() {
    for r in (0..=255u8).step_by(5) {
        for g in (0..=255u8).step_by(5) {
            for b in (0..=255u8).step_by(3) {
                let c = rgb_to_8_bit_ycbcr(Rgb8::new(r, g, b));
                let back = inverse(c[0] as i32, c[1] as i32, c[2] as i32);
                assert!((back[0] - r as i32).abs() <= 1);
                assert!((back[1] - g as i32).abs() <= 1);
                assert!((back[2] - b as i32).abs() <= 1);
            }
        }
    }
}

#[test]
fn speed_table_examples() {
    let t = SpeedTweaks::from_my_preset(4, quality_to_quantizer(70));
    assert_eq!(t.partition_range, Some((4, 16)));
    assert_eq!(t.min_tile_size, 512);
    assert_eq!(t.rdo_tx_decision, Some(false));
    assert_eq!(t.reduced_tx_set, Some(true));
    assert_eq!(t.lrf, Some(true));
    let hq = SpeedTweaks::from_my_preset(0, quality_to_quantizer(95));
    assert_eq!(hq.partition_range, Some((4, 64)));
    assert_eq!(hq.min_tile_size, 4096);
    assert_eq!(hq.fast_deblock, Some(false));
    let fast = SpeedTweaks::from_my_preset(10, 200);
    assert_eq!(fast.partition_range, Some((16, 16)));
    assert_eq!(fast.tx_domain_rate, Some(true));
    assert_eq!(fast.cdef, Some(false));
}

#[test]
fn builder_rejects_out_of_range() {
    assert_eq!(Encoder::new().with_quality(0).err().unwrap(), Error::QualityOutOfRange);
    assert_eq!(Encoder::new().with_quality(101).err().unwrap(), Error::QualityOutOfRange);
    assert_eq!(Encoder::new().with_alpha_quality(0).err().unwrap(), Error::QualityOutOfRange);
    assert_eq!(Encoder::new().with_speed(0).err().unwrap(), Error::SpeedOutOfRange);
    assert_eq!(Encoder::new().with_speed(11).err().unwrap(), Error::SpeedOutOfRange);
    assert_eq!(Encoder::new().with_bit_depth(9).err().unwrap(), Error::UnsupportedBitDepth);
}

#[test]
fn too_narrow_image_is_rejected() {
    let enc = encoder_q70_s4_d10();
    for (w, h) in [(31usize, 64usize), (1, 1), (0, 100), (16, 2000)] {
        let bmp = SourceBitmap {
            width: w,
            height: h,
            pixels: vec![Rgba8::new(10, 20, 30, 40); w * h],
            has_alpha: true,
        };
        assert_eq!(enc.encode(&bmp).err().unwrap(), Error::ImageTooNarrow);
    }
    let rgb = vec![Rgb8::new(0, 0, 0); 31 * 40];
    assert_eq!(enc.encode_rgb(31, 40, &rgb).err().unwrap(), Error::ImageTooNarrow);
}

#[test]
fn too_few_pixels_is_rejected() {
    let enc = encoder_q70_s4_d10();
    let planes = vec![[0u16, 512, 512]; 64 * 64 - 1];
    let r = enc.encode_raw_planes_10_bit(64, 64, &planes, None, PixelRange::Full);
    assert_eq!(r.err().unwrap(), Error::TooFewPixels);
    let full = vec![[0u16, 512, 512]; 64 * 64];
    let alpha = vec![255u16; 10];
    let r = enc.encode_raw_planes_10_bit(64, 64, &full, Some(&alpha), PixelRange::Full);
    assert_eq!(r.err().unwrap(), Error::TooFewPixels);
    let mut bmp = red_bitmap(64, 64);
    bmp.pixels.truncate(100);
    assert_eq!(enc.encode(&bmp).err().unwrap(), Error::TooFewPixels);
}

#[test]
fn raw_plane_errors() {
    let enc = encoder_q70_s4_d10();
    let planes = vec![[2000u16, 512, 512]; 64 * 64];
    let r = enc.encode_raw_planes_10_bit(64, 64, &planes, None, PixelRange::Full);
    assert_eq!(r.err().unwrap(), Error::SampleOutOfRange);
    let r = enc.encode_raw_planes(64, 64, &planes, None, PixelRange::Full, 9);
    assert_eq!(r.err().unwrap(), Error::UnsupportedBitDepth);
    let r = enc.encode_raw_planes(0, 64, &planes, None, PixelRange::Full, 10);
    assert_eq!(r.err().unwrap(), Error::InvalidConfig);
}

#[test]
fn opaque_red_square_has_no_alpha_payload() {
    let enc = encoder_q70_s4_d10();
    let img = enc.encode(&red_bitmap(64, 64)).unwrap();
    assert!(!img.avif_file.is_empty());
    assert_eq!(img.alpha_byte_size, 0);
    assert!(img.color_byte_size > 0);
    assert!(img.avif_file.len() > img.color_byte_size);
    assert_eq!(&img.avif_file[4..12], b"ftypavif");
    assert!(img.avif_file.windows(4).any(|w| w == b"ispe"));
}

#[test]
fn opaque_fast_path_matches_rgb_encode() {
    let enc = encoder_q70_s4_d10();
    let bmp = red_bitmap(64, 64);
    let a = enc.encode(&bmp).unwrap();
    let rgb: Vec<Rgb8> = bmp.pixels.iter().map(|p| p.rgb()).collect();
    let b = enc.encode_rgb(64, 64, &rgb).unwrap();
    assert_eq!(a.avif_file, b.avif_file);
    assert_eq!(a.color_byte_size, b.color_byte_size);
    assert_eq!(a.alpha_byte_size, b.alpha_byte_size);
}

#[test]
fn transparent_quadrant_has_alpha_payload() {
    let enc = encoder_q70_s4_d10();
    let mut bmp = red_bitmap(64, 64);
    for y in 0..32 {
        for x in 0..32 {
            bmp.pixels[y * 64 + x].a = 0;
        }
    }
    let img = enc.encode(&bmp).unwrap();
    assert!(img.alpha_byte_size > 0);
    assert!(img.color_byte_size > 0);
    assert!(img.avif_file.len() > img.color_byte_size + img.alpha_byte_size);
    assert!(img.avif_file.windows(4).any(|w| w == b"auxC"));
}

#[test]
fn bitmap_without_alpha_channel_has_no_alpha_payload() {
    let enc = encoder_q70_s4_d10();
    let mut bmp = red_bitmap(32, 32);
    bmp.has_alpha = false;
    bmp.pixels[0].a = 0;
    let img = enc.encode(&bmp).unwrap();
    assert_eq!(img.alpha_byte_size, 0);
}

#[test]
fn eight_bit_raw_planes_encode() {
    let enc = Encoder::new().with_num_threads(1).with_speed(10).unwrap();
    let planes = vec![[76u8, 85, 255]; 32 * 32];
    let alpha = vec![128u8; 32 * 32];
    let img = enc
        .encode_raw_planes_8_bit(32, 32, &planes, Some(&alpha), PixelRange::Full)
        .unwrap();
    assert!(img.color_byte_size > 0);
    assert!(img.alpha_byte_size > 0);
}

#[test]
fn exif_block_is_embedded() {
    let enc = encoder_q70_s4_d10().with_exif_data(b"MM\0\x2a\0\0\0\x08\0\0\0\0\0\0".to_vec());
    let with = enc.encode(&red_bitmap(32, 32)).unwrap();
    let without = encoder_q70_s4_d10().encode(&red_bitmap(32, 32)).unwrap();
    assert!(with.avif_file.windows(4).any(|w| w == b"Exif"));
    assert!(!without.avif_file.windows(4).any(|w| w == b"Exif"));
}
