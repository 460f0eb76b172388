use renderer_bridge::color::{decode_hex_color, ColorError, RgbaColor};
use renderer_bridge::engine::{BufferBundle, ColorRole, CreateError, EngineInstance, WindowHandle};
use renderer_bridge::geometry::{transform_rect, transform_rects, NdcRect, PixelRect, RectArrayError};
use renderer_bridge::grid::build_grid;

fn ndc_as_f64(r: &NdcRect) -> (f64, f64, f64, f64) {
    let den = r.den as f64;
    (
        r.left_num as f64 / den,
        r.top_num as f64 / den,
        r.right_num as f64 / den,
        r.bottom_num as f64 / den,
    )
}

#[test]
fn test_convert_rect_float_arr_to_vec_rect() {
    let flat: Vec<i32> = vec![0, 0, 1080, 381];
    let res = transform_rects(&flat, 1080, 1920).unwrap();
    assert_eq!(res.len(), 1);
    assert_eq!(ndc_as_f64(&res[0]), (-0.5625, 1.0, 0.5625, 0.603125));
}

#[test]
fn transform_rejects_empty_array() {
    let flat: Vec<i32> = vec![];
    assert_eq!(
        transform_rects(&flat, 1080, 1920),
        Err(RectArrayError::Empty)
    );
}

#[test]
fn transform_rejects_length_not_multiple_of_four() {
    for len in [1usize, 2, 3, 5, 6, 7, 9] {
        let flat: Vec<i32> = (0..len as i32).collect();
        assert_eq!(
            transform_rects(&flat, 1080, 1920),
            Err(RectArrayError::NotMultipleOfFour),
            "length {len} must be rejected"
        );
    }
}

#[test]
fn transform_preserves_order() {
    let flat: Vec<i32> = vec![0, 0, 1080, 381, 100, 200, 300, 400];
    let res = transform_rects(&flat, 1080, 1920).unwrap();
    assert_eq!(res.len(), 2);
    assert_eq!(res[0], transform_rect(PixelRect { left: 0, top: 0, right: 1080, bottom: 381 }, 1080, 1920));
    assert_eq!(res[1], transform_rect(PixelRect { left: 100, top: 200, right: 300, bottom: 400 }, 1080, 1920));
}

#[test]
fn transform_round_trips_numerically() {
    // The algebraic inverse of the conversion: x = (num + w) / 2 and
    // y = (den - num) / 2, both exact because the numerators have the
    // parity of w and den.
    let p = PixelRect { left: -7, top: 13, right: 1033, bottom: 381 };
    let (w, h) = (1080u32, 1920u32);
    let n = transform_rect(p, w, h);
    assert_eq!((n.left_num + w as i64) / 2, p.left as i64);
    assert_eq!((n.den - n.top_num) / 2, p.top as i64);
    assert_eq!((n.right_num + w as i64) / 2, p.right as i64);
    assert_eq!((n.den - n.bottom_num) / 2, p.bottom as i64);
}

fn cell(i: i32) -> NdcRect {
    let i = i as i64;
    NdcRect {
        left_num: 10 * i,
        top_num: 10 * i + 1,
        right_num: 10 * i + 2,
        bottom_num: 10 * i + 3,
        den: 1920,
    }
}

#[test]
fn grid_places_cells_row_major() {
    let (rows, cols) = (4u16, 3u16);
    let cells: Vec<NdcRect> = (0..(rows * cols) as i32).map(cell).collect();
    let grid = build_grid(&cells, rows, cols);
    for row in 0..rows {
        for col in 0..cols {
            assert_eq!(
                grid.get(row, col),
                cells[(col + row * cols) as usize],
                "cell ({row}, {col}) must come from index col + row * cols"
            );
        }
    }
}

#[test]
fn decode_color_six_digits() {
    assert_eq!(
        decode_hex_color(&b"#112233".to_vec()),
        Ok(RgbaColor { red: 0x11, green: 0x22, blue: 0x33, alpha: 255 })
    );
    assert_eq!(
        decode_hex_color(&b"#A1b2C3".to_vec()),
        Ok(RgbaColor { red: 0xa1, green: 0xb2, blue: 0xc3, alpha: 255 })
    );
}

#[test]
fn decode_color_without_hash() {
    assert_eq!(
        decode_hex_color(&b"abcdef".to_vec()),
        Ok(RgbaColor { red: 0xab, green: 0xcd, blue: 0xef, alpha: 255 })
    );
}

#[test]
fn decode_color_eight_digits() {
    assert_eq!(
        decode_hex_color(&b"#11223344".to_vec()),
        Ok(RgbaColor { red: 0x11, green: 0x22, blue: 0x33, alpha: 0x44 })
    );
}

#[test]
fn decode_color_rejects_bad_length() {
    assert_eq!(decode_hex_color(&b"".to_vec()), Err(ColorError::BadLength));
    assert_eq!(decode_hex_color(&b"#12345".to_vec()), Err(ColorError::BadLength));
    assert_eq!(decode_hex_color(&b"#1234567".to_vec()), Err(ColorError::BadLength));
}

#[test]
fn decode_color_rejects_bad_digit() {
    assert_eq!(decode_hex_color(&b"#G12345".to_vec()), Err(ColorError::BadDigit));
    assert_eq!(decode_hex_color(&b"12345 ".to_vec()), Err(ColorError::BadDigit));
}

fn surface() -> WindowHandle {
    WindowHandle { raw: 0x7f00_0000_1000, width: 1080, height: 1920 }
}

fn message_flat() -> Vec<i32> {
    vec![0, 0, 1080, 381]
}

fn pinpad_flat(cols: u16, rows: u16) -> Vec<i32> {
    let mut flat = Vec::new();
    for i in 0..(cols as i32) * (rows as i32) {
        flat.extend_from_slice(&[10 * i, 10 * i + 1, 10 * i + 2, 10 * i + 3]);
    }
    flat
}

fn bundle() -> BufferBundle {
    BufferBundle {
        message_buf: vec![1, 2, 3, 4, 5],
        pinpad_buf: vec![9, 8, 7],
    }
}

fn create_with(
    surface: WindowHandle,
    message: &Vec<i32>,
    pinpad: &Vec<i32>,
    cols: u16,
    rows: u16,
    colors: [&[u8]; 4],
) -> Result<EngineInstance, CreateError> {
    EngineInstance::create(
        surface,
        message,
        pinpad,
        cols,
        rows,
        &colors[0].to_vec(),
        &colors[1].to_vec(),
        &colors[2].to_vec(),
        &colors[3].to_vec(),
        bundle(),
    )
}

const COLORS: [&[u8]; 4] = [b"#101112", b"#202122", b"#303132", b"#404142"];

#[test]
fn create_succeeds_and_captures_inputs() {
    let e = create_with(surface(), &message_flat(), &pinpad_flat(3, 4), 3, 4, COLORS).unwrap();
    // The message rectangle is the reference pixel rectangle in NDC.
    assert_eq!(ndc_as_f64(&e.message_rect()), (-0.5625, 1.0, 0.5625, 0.603125));
    assert_eq!((e.pinpad_cols(), e.pinpad_rows()), (3, 4));
    // The one-shot bundle's buffers are inside the instance, unmutated.
    assert_eq!(e.message_buf(), &vec![1, 2, 3, 4, 5]);
    assert_eq!(e.pinpad_buf(), &vec![9, 8, 7]);
    let (mt, ct, cf, bg) = e.colors();
    assert_eq!(mt, RgbaColor { red: 0x10, green: 0x11, blue: 0x12, alpha: 255 });
    assert_eq!(ct, RgbaColor { red: 0x20, green: 0x21, blue: 0x22, alpha: 255 });
    assert_eq!(cf, RgbaColor { red: 0x30, green: 0x31, blue: 0x32, alpha: 255 });
    assert_eq!(bg, RgbaColor { red: 0x40, green: 0x41, blue: 0x42, alpha: 255 });
    assert_eq!(e.frame_count(), 0);
}

#[test]
fn create_builds_row_major_pinpad_grid() {
    let pinpad = pinpad_flat(3, 4);
    let e = create_with(surface(), &message_flat(), &pinpad, 3, 4, COLORS).unwrap();
    for row in 0..4u16 {
        for col in 0..3u16 {
            let i = (col + row * 3) as usize;
            let expect = transform_rect(
                PixelRect {
                    left: pinpad[4 * i],
                    top: pinpad[4 * i + 1],
                    right: pinpad[4 * i + 2],
                    bottom: pinpad[4 * i + 3],
                },
                1080,
                1920,
            );
            assert_eq!(e.pinpad_rect(row, col), Some(expect));
        }
    }
    assert_eq!(e.pinpad_rect(4, 0), None);
    assert_eq!(e.pinpad_rect(0, 3), None);
}

#[test]
fn create_rejects_null_window() {
    let s = WindowHandle { raw: 0, ..surface() };
    let r = create_with(s, &message_flat(), &pinpad_flat(3, 4), 3, 4, COLORS);
    assert!(matches!(r, Err(CreateError::InvalidSurface)));
}

#[test]
fn create_rejects_zero_dimension() {
    let s = WindowHandle { height: 0, ..surface() };
    let r = create_with(s, &message_flat(), &pinpad_flat(3, 4), 3, 4, COLORS);
    assert!(matches!(r, Err(CreateError::InvalidSurface)));
}

#[test]
fn create_rejects_empty_message_array() {
    let r = create_with(surface(), &vec![], &pinpad_flat(3, 4), 3, 4, COLORS);
    assert!(matches!(r, Err(CreateError::MessageRects(RectArrayError::Empty))));
}

#[test]
fn create_rejects_ragged_message_array() {
    let r = create_with(surface(), &vec![0, 0, 1080], &pinpad_flat(3, 4), 3, 4, COLORS);
    assert!(matches!(r, Err(CreateError::MessageRects(RectArrayError::NotMultipleOfFour))));
}

#[test]
fn create_rejects_two_message_rects() {
    let two = vec![0, 0, 1080, 381, 0, 0, 10, 10];
    let r = create_with(surface(), &two, &pinpad_flat(3, 4), 3, 4, COLORS);
    assert!(matches!(r, Err(CreateError::MessageRectCount)));
}

#[test]
fn create_rejects_ragged_pinpad_array() {
    let r = create_with(surface(), &message_flat(), &vec![1, 2], 3, 4, COLORS);
    assert!(matches!(r, Err(CreateError::PinpadRects(RectArrayError::NotMultipleOfFour))));
}

#[test]
fn create_rejects_pinpad_count_mismatch() {
    // 12 rectangles cannot fill a 3 x 3 grid.
    let r = create_with(surface(), &message_flat(), &pinpad_flat(3, 4), 3, 3, COLORS);
    assert!(matches!(r, Err(CreateError::PinpadRectCount)));
}

#[test]
fn create_rejects_bad_color_and_names_the_role() {
    let cases: [(usize, ColorRole); 4] = [
        (0, ColorRole::MessageText),
        (1, ColorRole::CircleText),
        (2, ColorRole::CircleFill),
        (3, ColorRole::Background),
    ];
    for (slot, role) in cases {
        let mut colors = COLORS;
        colors[slot] = b"#xyzxyz";
        let r = create_with(surface(), &message_flat(), &pinpad_flat(3, 4), 3, 4, colors);
        match r {
            Err(CreateError::InvalidColor(got, ColorError::BadDigit)) => assert_eq!(got, role),
            other => panic!("expected a bad digit color error, got {:?}", other.err()),
        }
    }
    let mut colors = COLORS;
    colors[1] = b"#12345";
    let r = create_with(surface(), &message_flat(), &pinpad_flat(3, 4), 3, 4, colors);
    assert!(matches!(r, Err(CreateError::InvalidColor(ColorRole::CircleText, ColorError::BadLength))));
}

#[test]
fn lifecycle_create_advance_n_release() {
    for n in [0u64, 1, 7, 100] {
        let mut e = create_with(surface(), &message_flat(), &pinpad_flat(3, 4), 3, 4, COLORS)
            .unwrap();
        for _ in 0..n {
            e.advance();
        }
        assert_eq!(e.frame_count(), n);
        // Advancing never disturbs the configuration.
        assert_eq!(e.message_buf(), &vec![1, 2, 3, 4, 5]);
        assert_eq!(ndc_as_f64(&e.message_rect()), (-0.5625, 1.0, 0.5625, 0.603125));
        e.release();
    }
}
