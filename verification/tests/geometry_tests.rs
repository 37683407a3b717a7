use bootanim::geometry::{BlitError, BlitPlan, DisplayGeometry, FbWriter, GeometryError};

fn phone_display() -> DisplayGeometry {
    DisplayGeometry {
        xres: 1080,
        yres: 1920,
        bits_per_pixel: 32,
        xoffset: 0,
        yoffset: 0,
        line_length: 4320,
    }
}

#[test]
fn centering_offset_matches_formula() {
    let writer = phone_display().writer(720, 720).unwrap();
    // (1920-720)/2 * 4320 + (1080-720)/2 * 4
    assert_eq!(writer.plan.byte_offset, 2_592_720);
    assert_eq!(writer.plan.row_bytes, 2880);
    assert_eq!(writer.plan.rows, 720);
    assert_eq!(writer.plan.line_length, 4320);
}

#[test]
fn full_screen_image_starts_at_origin() {
    let writer = phone_display().writer(1080, 1920).unwrap();
    assert_eq!(writer.plan.byte_offset, 0);
    assert_eq!(writer.plan.row_bytes, 4320);
}

#[test]
fn virtual_offsets_shift_the_start() {
    let g = DisplayGeometry {
        xres: 100,
        yres: 100,
        bits_per_pixel: 16,
        xoffset: 3,
        yoffset: 2,
        line_length: 256,
    };
    let writer = g.writer(10, 10).unwrap();
    // y = 45, x = 45, bpp = 2: (45+2)*256 + (45+3)*2
    assert_eq!(writer.plan.byte_offset, 47 * 256 + 48 * 2);
    assert_eq!(writer.plan.row_bytes, 20);
}

#[test]
fn oversized_image_fails_explicitly() {
    assert_eq!(
        phone_display().writer(1081, 720),
        Err(GeometryError::DoesNotFit)
    );
    assert_eq!(
        phone_display().writer(720, 1921),
        Err(GeometryError::DoesNotFit)
    );
    assert_eq!(
        phone_display().writer(1081, 1921),
        Err(GeometryError::DoesNotFit)
    );
}

#[test]
fn row_wider_than_scanline_fails() {
    let g = DisplayGeometry {
        xres: 100,
        yres: 100,
        bits_per_pixel: 32,
        xoffset: 0,
        yoffset: 0,
        line_length: 128,
    };
    // 100 pixels at 4 bytes each need 400 bytes, more than one 128-byte line.
    assert_eq!(g.writer(100, 10), Err(GeometryError::DoesNotFit));
}

#[test]
fn unrepresentable_offset_fails() {
    let g = DisplayGeometry {
        xres: 8,
        yres: usize::MAX,
        bits_per_pixel: 8,
        xoffset: 0,
        yoffset: usize::MAX,
        line_length: 16,
    };
    assert_eq!(g.writer(8, 1), Err(GeometryError::Overflow));
}

fn striped_writer(byte_offset: usize) -> FbWriter {
    FbWriter {
        plan: BlitPlan {
            byte_offset,
            row_bytes: 8,
            rows: 2,
            line_length: 16,
        },
    }
}

#[test]
fn row_spans_stride_by_line_length() {
    let writer = striped_writer(4);
    let spans = writer.row_spans(16, 64).unwrap();
    // Two writes: row 0 at the offset, row 1 one full scanline later —
    // never at offset + row_bytes.
    assert_eq!(spans, vec![(4, 0, 8), (4 + 16, 8, 16)]);
}

#[test]
fn row_spans_refuse_short_frame_or_device() {
    let writer = striped_writer(4);
    assert_eq!(writer.row_spans(15, 64), None);
    // The last written byte would be 4 + 16 + 8 - 1 = 27, so 27 bytes of
    // device are too few and 28 are enough.
    assert_eq!(writer.row_spans(16, 27), None);
    assert!(writer.row_spans(16, 28).is_some());
}

#[test]
fn write_stripes_rows_and_leaves_gaps() {
    let writer = striped_writer(4);
    let frame: Vec<u8> = (0xa0..0xa8).chain(0xb0..0xb8).collect();
    let mut dev = vec![0xee_u8; 40];
    writer.write(&mut dev, &frame).unwrap();
    let mut expected = vec![0xee_u8; 40];
    expected[4..12].copy_from_slice(&frame[0..8]);
    expected[20..28].copy_from_slice(&frame[8..16]);
    assert_eq!(dev, expected);
}

#[test]
fn write_rejects_short_frame() {
    let writer = striped_writer(0);
    let mut dev = vec![0u8; 64];
    let before = dev.clone();
    assert_eq!(
        writer.write(&mut dev, &vec![1u8; 15]),
        Err(BlitError::FrameTooShort)
    );
    assert_eq!(dev, before);
}

#[test]
fn write_rejects_short_device() {
    let writer = striped_writer(4);
    let mut dev = vec![0u8; 27];
    let before = dev.clone();
    assert_eq!(
        writer.write(&mut dev, &vec![1u8; 16]),
        Err(BlitError::DeviceTooSmall)
    );
    assert_eq!(dev, before);
}

#[test]
fn write_whole_frame_through_plan() {
    // A 3x4-pixel image at 1 byte per pixel on a display with 6-byte lines.
    let g = DisplayGeometry {
        xres: 6,
        yres: 5,
        bits_per_pixel: 8,
        xoffset: 0,
        yoffset: 0,
        line_length: 6,
    };
    let writer = g.writer(4, 3).unwrap();
    // x = 1, y = 1: offset = 1*6 + 1 = 7.
    assert_eq!(writer.plan.byte_offset, 7);
    let frame: Vec<u8> = (1..=12).collect();
    let mut dev = vec![0u8; 30];
    writer.write(&mut dev, &frame).unwrap();
    let expected = vec![
        0, 0, 0, 0, 0, 0, 0, 1, 2, 3, 4, 0, 0, 5, 6, 7, 8, 0, 0, 9, 10, 11, 12, 0, 0, 0, 0, 0, 0,
        0,
    ];
    assert_eq!(dev, expected);
}
