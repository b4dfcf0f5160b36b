use mandelbrot::{
    buffer_len, encode_image, escape_step, plan_tangents, render_in_bands, row_band, shade_band,
    Bounds, Color, EncodeError, EscapeStep, Palette, ITERATION_LIMIT, PALETTE_LEN,
};

fn ramp_palette() -> Palette {
    let red: Vec<u8> = (0..PALETTE_LEN).map(|j| (j % 256) as u8).collect();
    let green: Vec<u8> = (0..PALETTE_LEN).map(|j| (j / 8) as u8).collect();
    let blue: Vec<u8> = vec![7; PALETTE_LEN];
    Palette::from_channels(&red, &green, &blue).unwrap()
}

#[test]
fn palette_has_fixed_length() {
    let p = ramp_palette();
    assert_eq!(p.len(), 2048);
    assert_eq!(p.colors().len(), 2048);
    assert_eq!(p.colors()[300], Color(44, 37, 7));
}

#[test]
fn palette_rejects_wrong_channel_lengths() {
    let full = vec![0u8; PALETTE_LEN];
    let short = vec![0u8; 2047];
    assert!(Palette::from_channels(&short, &full, &full).is_none());
    assert!(Palette::from_channels(&full, &full, &vec![0u8; 2049]).is_none());
    assert!(Palette::from_channels(&full, &full, &full).is_some());
}

#[test]
fn palette_lookup_clamps_count() {
    let p = ramp_palette();
    assert_eq!(p.color(0), Color(0, 0, 7));
    assert_eq!(p.color(254), Color(254, 31, 7));
    assert_eq!(p.color(2047), Color(255, 255, 7));
    assert_eq!(p.color(5000), Color(255, 255, 7));
    assert_eq!(p.pixel_color(None), Color(0, 0, 0));
    assert_eq!(p.pixel_color(Some(9)), Color(9, 1, 7));
}

#[test]
fn shade_band_writes_three_bytes_per_pixel() {
    let p = ramp_palette();
    let escapes = vec![Some(1), None, Some(3000)];
    let mut band = vec![99u8; 9];
    shade_band(&escapes, &p, &mut band);
    assert_eq!(band, vec![1, 0, 7, 0, 0, 0, 255, 255, 7]);
}

#[test]
fn bands_of_any_height_give_same_buffer() {
    let p = ramp_palette();
    let bounds = Bounds(3usize, 4usize);
    let escapes: Vec<Option<usize>> =
        (0..12).map(|i| if i % 5 == 0 { None } else { Some(i * 20) }).collect();
    let whole = render_in_bands(bounds, &escapes, &p, 4);
    assert_eq!(whole.len(), 36);
    for rows in [1usize, 2, 3, 5] {
        assert_eq!(render_in_bands(bounds, &escapes, &p, rows), whole);
    }
    assert_eq!(&whole[0..3], &[0, 0, 0]);
    assert_eq!(&whole[3..6], &[20, 2, 7]);
}

#[test]
fn two_by_two_render_is_reproducible() {
    let black_white = Palette::from_channels(
        &(0..PALETTE_LEN).map(|j| (j * 255 / 2047) as u8).collect(),
        &(0..PALETTE_LEN).map(|j| (j * 255 / 2047) as u8).collect(),
        &(0..PALETTE_LEN).map(|j| (j * 255 / 2047) as u8).collect(),
    )
    .unwrap();
    let bounds = Bounds(2usize, 2usize);
    let escapes = vec![Some(1000), Some(2047), Some(0), None];
    let first = render_in_bands(bounds, &escapes, &black_white, 1);
    let second = render_in_bands(bounds, &escapes, &black_white, 2);
    assert_eq!(first.len(), 12);
    assert_eq!(first, second);
    assert_eq!(first, vec![124, 124, 124, 255, 255, 255, 0, 0, 0, 0, 0, 0]);
}

#[test]
fn row_bands_tile_buffer() {
    let bounds = Bounds(5usize, 3usize);
    assert_eq!(buffer_len(bounds), Some(45));
    assert_eq!(row_band(bounds, 0), (0, 15));
    assert_eq!(row_band(bounds, 1), (15, 30));
    assert_eq!(row_band(bounds, 2), (30, 45));
}

#[test]
fn buffer_len_detects_overflow() {
    assert_eq!(buffer_len(Bounds(usize::MAX, 2)), None);
    assert_eq!(buffer_len(Bounds(usize::MAX / 3 + 1, 1)), None);
    assert_eq!(buffer_len(Bounds(0, 7)), Some(0));
}

#[test]
fn escape_step_decisions() {
    assert_eq!(escape_step(0, ITERATION_LIMIT, true), EscapeStep::Diverged(0));
    assert_eq!(escape_step(0, ITERATION_LIMIT, false), EscapeStep::Continue(1));
    assert_eq!(escape_step(253, 255, false), EscapeStep::Continue(254));
    assert_eq!(escape_step(254, 255, false), EscapeStep::Bounded);
    assert_eq!(escape_step(254, 255, true), EscapeStep::Diverged(254));
    assert_eq!(escape_step(0, 1, false), EscapeStep::Bounded);
}

#[test]
fn escape_step_driven_finds_first_escape() {
    let tests = [false, false, true, true];
    let mut i = 0usize;
    let outcome = loop {
        match escape_step(i, 4, tests[i]) {
            EscapeStep::Diverged(n) => break Some(n),
            EscapeStep::Bounded => break None,
            EscapeStep::Continue(next) => i = next,
        }
    };
    assert_eq!(outcome, Some(2));
}

#[test]
fn tangent_plan_pins_extrema_and_flats() {
    assert!(plan_tangents(&[]).is_none());
    assert!(plan_tangents(&[5]).is_none());
    let plan = plan_tangents(&[0, 100, 50, 50, 80]).unwrap();
    assert_eq!(plan.pinned, vec![false, true, true, true, false]);
    assert_eq!(plan.limited, vec![0, 1, 3]);
}

#[test]
fn tangent_plan_of_monotone_values_pins_nothing() {
    let plan = plan_tangents(&[0, 10, 200, 255]).unwrap();
    assert_eq!(plan.pinned, vec![false; 4]);
    assert_eq!(plan.limited, vec![0, 1, 2]);
    let plan = plan_tangents(&[255, 0]).unwrap();
    assert_eq!(plan.pinned, vec![false, false]);
    assert_eq!(plan.limited, vec![0]);
}

#[test]
fn encode_image_writes_png() {
    let pixels: Vec<u8> = (0..12).map(|i| (i * 20) as u8).collect();
    let png = encode_image(&pixels, Bounds(2, 2)).unwrap();
    assert_eq!(&png[0..8], &[137, 80, 78, 71, 13, 10, 26, 10]);
    assert_ne!(png, pixels);
    let decoded = image::load_from_memory(&png).unwrap().to_rgb8();
    assert_eq!(decoded.dimensions(), (2, 2));
    assert_eq!(decoded.into_raw(), pixels);
}

#[test]
fn encode_image_errors() {
    assert!(matches!(encode_image(&[0; 6], Bounds(1, 1)), Err(EncodeError::SizeMismatch)));
    assert!(matches!(encode_image(&[], Bounds(0, 4)), Err(EncodeError::EmptyImage)));
    assert!(matches!(
        encode_image(&[], Bounds(1usize << 33, 1)),
        Err(EncodeError::TooLarge)
    ));
}
