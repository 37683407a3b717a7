use bootanim::codec::{read_frames, read_u32, Error, ErrorKind};
use flate2::write::ZlibEncoder;
use flate2::Compression;
use std::io::Write;

fn zlib_compress(raw: &[u8]) -> Vec<u8> {
    let mut enc = ZlibEncoder::new(Vec::new(), Compression::default());
    enc.write_all(raw).unwrap();
    enc.finish().unwrap()
}

fn make_archive(frame_count: u32, height: u32, width: u32, bpp: u32, raw: &[u8]) -> Vec<u8> {
    let mut data = Vec::new();
    data.extend_from_slice(&frame_count.to_le_bytes());
    data.extend_from_slice(&height.to_le_bytes());
    data.extend_from_slice(&width.to_le_bytes());
    data.extend_from_slice(&bpp.to_le_bytes());
    data.extend_from_slice(&zlib_compress(raw));
    data
}

#[test]
fn read_u32_is_little_endian() {
    let data = vec![0x05, 0x00, 0x00, 0x01, 0xff];
    assert_eq!(read_u32(&data, 0), Ok(0x0100_0005));
    assert_eq!(read_u32(&data, 1), Ok(0xff01_0000));
}

#[test]
fn read_u32_short_input() {
    let data = vec![1, 2, 3];
    assert_eq!(
        read_u32(&data, 0),
        Err(Error {
            kind: ErrorKind::UnexpectedEof
        })
    );
}

#[test]
fn round_trip_reproduces_every_frame() {
    // Two frames of 2x3 pixels at 2 bytes per pixel: 12 bytes each.
    let raw: Vec<u8> = (0u8..24).collect();
    let data = make_archive(2, 2, 3, 2, &raw);
    // The payload really is compressed, not the raw bytes passed through.
    assert_ne!(&data[16..], &raw[..]);
    let archive = read_frames(&data).unwrap();
    assert_eq!(archive.frame_count, 2);
    assert_eq!(archive.height, 2);
    assert_eq!(archive.width, 3);
    assert_eq!(archive.bytes_per_pixel, 2);
    assert_eq!(archive.frame_size, 12);
    assert_eq!(archive.frames, raw);
    for i in 0..2usize {
        let (start, end) = archive.frame_range(i);
        assert_eq!(&archive.frames[start..end], &raw[i * 12..(i + 1) * 12]);
    }
}

#[test]
fn round_trip_highly_compressible_frames() {
    let raw = vec![0xabu8; 64];
    let data = make_archive(4, 4, 4, 1, &raw);
    let archive = read_frames(&data).unwrap();
    assert_eq!(archive.frames, raw);
    assert_eq!(archive.frame_size, 16);
}

#[test]
fn empty_archive_decodes() {
    let raw: Vec<u8> = Vec::new();
    let data = make_archive(0, 4, 4, 1, &raw);
    let archive = read_frames(&data).unwrap();
    assert_eq!(archive.frame_count, 0);
    assert_eq!(archive.frames.len(), 0);
}

#[test]
fn truncated_header_rejected() {
    for len in 0..16 {
        let data = vec![0u8; len];
        assert_eq!(
            read_frames(&data),
            Err(Error {
                kind: ErrorKind::UnexpectedEof
            })
        );
    }
}

#[test]
fn truncated_stream_rejected() {
    let raw: Vec<u8> = (0u8..24).collect();
    let data = make_archive(2, 2, 3, 2, &raw);
    let cut = &data[..data.len() - 4].to_vec();
    assert_eq!(
        read_frames(cut),
        Err(Error {
            kind: ErrorKind::UnexpectedEof
        })
    );
}

#[test]
fn short_payload_rejected() {
    // Header announces 24 bytes but the stream inflates to only 20.
    let raw: Vec<u8> = (0u8..20).collect();
    let data = make_archive(2, 2, 3, 2, &raw);
    assert_eq!(
        read_frames(&data),
        Err(Error {
            kind: ErrorKind::UnexpectedEof
        })
    );
}

#[test]
fn trailing_data_rejected() {
    // Header announces 24 bytes but the stream inflates to 25.
    let raw: Vec<u8> = (0u8..25).collect();
    let data = make_archive(2, 2, 3, 2, &raw);
    assert_eq!(
        read_frames(&data),
        Err(Error {
            kind: ErrorKind::ExpectedEof
        })
    );
}

#[test]
fn corrupt_stream_rejected() {
    let mut data = Vec::new();
    data.extend_from_slice(&1u32.to_le_bytes());
    data.extend_from_slice(&1u32.to_le_bytes());
    data.extend_from_slice(&1u32.to_le_bytes());
    data.extend_from_slice(&1u32.to_le_bytes());
    // Not a zlib stream at all.
    data.extend_from_slice(&[0xff, 0xff, 0xff, 0xff, 0xff, 0xff, 0xff, 0xff]);
    assert_eq!(read_frames(&data), Err(Error { kind: ErrorKind::Io }));
}

#[test]
fn error_messages_name_the_class() {
    let eof = Error {
        kind: ErrorKind::UnexpectedEof,
    };
    assert_eq!(eof.message(), "Unexpected end-of-file");
    let extra = Error {
        kind: ErrorKind::ExpectedEof,
    };
    assert_eq!(extra.message(), "Expected end-of-file");
    let io = Error {
        kind: ErrorKind::Io,
    };
    assert_eq!(io.message(), "I/O error in compressed stream");
}
