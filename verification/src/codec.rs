//! Decoding of the animation frame archive.
//!
//! An archive is a 16-byte header of four little-endian `u32` fields
//! (`frame_count`, `height`, `width`, `bytes_per_pixel`) followed by a single
//! zlib stream that inflates to exactly
//! `frame_count * height * width * bytes_per_pixel` bytes of raw pixel data.

use vstd::prelude::*;

verus! {

/// Failure classes of archive decoding.
#[derive(Debug, Clone, Copy, PartialEq, Eq, Structural)]
pub enum ErrorKind {
    /// The compressed payload was malformed in some way other than ending
    /// too early.
    Io,
    /// The input ended before a complete header or payload was seen.
    UnexpectedEof,
    /// The payload inflated to more bytes than the header announced.
    ExpectedEof,
}

/// A decoding error; carries only its failure class.
#[derive(Debug, Clone, Copy, PartialEq, Eq, Structural)]
pub struct Error {
    pub kind: ErrorKind,
}

impl Error {
    /// A human-readable description of the failure class.
    pub fn message(&self) -> (r: &'static str)
        ensures
            self.kind == ErrorKind::Io ==> r@ == "I/O error in compressed stream"@,
            self.kind == ErrorKind::UnexpectedEof ==> r@ == "Unexpected end-of-file"@,
            self.kind == ErrorKind::ExpectedEof ==> r@ == "Expected end-of-file"@,
    {
        match self.kind {
            ErrorKind::Io => "I/O error in compressed stream",
            ErrorKind::UnexpectedEof => "Unexpected end-of-file",
            ErrorKind::ExpectedEof => "Expected end-of-file",
        }
    }
}

/// The value of four bytes read as a little-endian 32-bit integer.
pub open spec fn le_u32(b0: u8, b1: u8, b2: u8, b3: u8) -> int {
    b0 + 0x100 * b1 + 0x1_0000 * b2 + 0x100_0000 * b3
}

/// The little-endian 32-bit integer stored at `pos` in `d`.
pub open spec fn le_u32_at(d: Seq<u8>, pos: int) -> int {
    le_u32(d[pos], d[pos + 1], d[pos + 2], d[pos + 3])
}

/// Reads the little-endian `u32` stored at `pos` in `data`, failing with
/// `UnexpectedEof` when fewer than four bytes remain.
pub fn read_u32(data: &Vec<u8>, pos: usize) -> (r: Result<u32, Error>)
    ensures
        pos + 4 <= data@.len() ==> (r matches Ok(v) && v == le_u32(
            data@[pos as int],
            data@[pos + 1],
            data@[pos + 2],
            data@[pos + 3],
        )),
        pos + 4 > data@.len() ==> r == Err::<u32, Error>(Error { kind: ErrorKind::UnexpectedEof }),
{
    if pos < data.len() && data.len() - pos >= 4 {
        let b0 = data[pos];
        let b1 = data[pos + 1];
        let b2 = data[pos + 2];
        let b3 = data[pos + 3];
        Ok((b0 as u32) + 0x100 * (b1 as u32) + 0x1_0000 * (b2 as u32) + 0x100_0000 * (b3 as u32))
    } else {
        Err(Error { kind: ErrorKind::UnexpectedEof })
    }
}

/// A decoded animation: the header fields and the flat buffer of raw frames.
#[derive(Debug, PartialEq, Eq)]
pub struct FrameArchive {
    pub frame_count: u32,
    pub height: u32,
    pub width: u32,
    pub bytes_per_pixel: u32,
    /// Bytes of a single frame: `height * width * bytes_per_pixel`.
    pub frame_size: usize,
    /// `frame_count` frames, packed back to back.
    pub frames: Vec<u8>,
}

impl FrameArchive {
    /// Well-formedness: `frame_size` is the exact per-frame byte count and the
    /// flat buffer holds exactly `frame_count` frames.
    pub open spec fn wf(self) -> bool {
        &&& self.frame_size == self.height * self.width * self.bytes_per_pixel
        &&& self.frames@.len() == self.frame_count * self.frame_size
    }

    /// The raw bytes of frame `i` of a well-formed archive.
    pub open spec fn spec_frame(self, i: int) -> Seq<u8> {
        self.frames@.subrange(i * self.frame_size, i * self.frame_size + self.frame_size)
    }

    /// The bytes of frame `i`, as a half-open range into the flat buffer:
    /// `i * frame_size .. (i + 1) * frame_size`, always inside the buffer.
    pub fn frame_range(&self, i: usize) -> (r: (usize, usize))
        requires
            self.wf(),
            i < self.frame_count,
        ensures
            r.0 == i * self.frame_size,
            r.1 == r.0 + self.frame_size,
            r.1 <= self.frames@.len(),
            self.frames@.subrange(r.0 as int, r.1 as int) == self.spec_frame(i as int),
    {
        let total: usize = self.frames.len();
        proof {
            vstd::arithmetic::mul::lemma_mul_inequality(
                i + 1,
                self.frame_count as int,
                self.frame_size as int,
            );
            vstd::arithmetic::mul::lemma_mul_is_distributive_add_other_way(
                self.frame_size as int,
                i as int,
                1,
            );
        }
        let start: usize = i * self.frame_size;
        (start, start + self.frame_size)
    }
}

/// What a zlib stream inflates to: `Ok` with the full inflated bytes when the
/// input begins with a complete well-formed stream, `Err(true)` when the input
/// ends before the stream is complete, `Err(false)` when the stream is
/// malformed in some other way.
pub uninterp spec fn zlib_inflate(s: Seq<u8>) -> Result<Seq<u8>, bool>;

/// Relies on flate2's `ZlibDecoder` (via `std::io::Read::read_to_end`): what a
/// zlib stream inflates to is a function of the input bytes alone, and the
/// decoder reports a premature end of input with the `UnexpectedEof` error
/// kind and any other malformation with a different kind.
#[verifier::external_body]
fn inflate(data: &[u8]) -> (r: Result<Vec<u8>, bool>)
    ensures
        match r {
            Ok(v) => zlib_inflate(data@) == Ok::<Seq<u8>, bool>(v@),
            Err(truncated) => zlib_inflate(data@) == Err::<Seq<u8>, bool>(truncated),
        },
{
    let mut decoder = flate2::read::ZlibDecoder::new(data);
    let mut out: Vec<u8> = Vec::new();
    match std::io::Read::read_to_end(&mut decoder, &mut out) {
        Ok(_) => Ok(out),
        Err(e) => Err(e.kind() == std::io::ErrorKind::UnexpectedEof),
    }
}

/// The per-frame byte count announced by a header: `height * width * bpp`.
pub open spec fn spec_frame_size(d: Seq<u8>) -> int {
    le_u32_at(d, 4) * le_u32_at(d, 8) * le_u32_at(d, 12)
}

/// The total raw byte count announced by a header:
/// `frame_count * height * width * bpp`.
pub open spec fn spec_expected_len(d: Seq<u8>) -> int {
    le_u32_at(d, 0) * spec_frame_size(d)
}

/// The archive decoder: parses the 16-byte header, inflates the rest, and
/// accepts exactly when the inflated payload has the announced length.
///
/// The result is `Ok` if and only if the input holds a full header, the
/// payload is a complete zlib stream, its inflated length equals
/// `frame_count * height * width * bytes_per_pixel`, and the per-frame size is
/// representable on this machine.  Each failure is classified exactly:
/// missing input is `UnexpectedEof`, surplus inflated bytes are `ExpectedEof`,
/// and any other payload malformation is `Io`.
pub fn read_frames(data: &Vec<u8>) -> (r: Result<FrameArchive, Error>)
    ensures
        data@.len() < 16 ==> r == Err::<FrameArchive, Error>(
            Error { kind: ErrorKind::UnexpectedEof },
        ),
        data@.len() >= 16 ==> match zlib_inflate(data@.subrange(16, data@.len() as int)) {
            Err(truncated) => r == Err::<FrameArchive, Error>(
                Error { kind: if truncated { ErrorKind::UnexpectedEof } else { ErrorKind::Io } },
            ),
            Ok(raw) => {
                &&& raw.len() < spec_expected_len(data@) ==> r == Err::<FrameArchive, Error>(
                    Error { kind: ErrorKind::UnexpectedEof },
                )
                &&& raw.len() > spec_expected_len(data@) ==> r == Err::<FrameArchive, Error>(
                    Error { kind: ErrorKind::ExpectedEof },
                )
                &&& (raw.len() == spec_expected_len(data@) && spec_frame_size(data@) > usize::MAX)
                    ==> r == Err::<FrameArchive, Error>(Error { kind: ErrorKind::UnexpectedEof })
                &&& (raw.len() == spec_expected_len(data@) && spec_frame_size(data@) <= usize::MAX)
                    ==> (r matches Ok(a) && {
                    &&& a.frame_count == le_u32_at(data@, 0)
                    &&& a.height == le_u32_at(data@, 4)
                    &&& a.width == le_u32_at(data@, 8)
                    &&& a.bytes_per_pixel == le_u32_at(data@, 12)
                    &&& a.frame_size == spec_frame_size(data@)
                    &&& a.frames@ == raw
                    &&& a.wf()
                })
            },
        },
{
    let frame_count = match read_u32(data, 0) {
        Ok(v) => v,
        Err(e) => { return Err(e); },
    };
    let height = match read_u32(data, 4) {
        Ok(v) => v,
        Err(e) => { return Err(e); },
    };
    let width = match read_u32(data, 8) {
        Ok(v) => v,
        Err(e) => { return Err(e); },
    };
    let bytes_per_pixel = match read_u32(data, 12) {
        Ok(v) => v,
        Err(e) => { return Err(e); },
    };
    proof {
        vstd::arithmetic::mul::lemma_mul_upper_bound(
            height as int,
            u32::MAX as int,
            width as int,
            u32::MAX as int,
        );
        vstd::arithmetic::mul::lemma_mul_upper_bound(
            height as int * width as int,
            u32::MAX as int * u32::MAX as int,
            bytes_per_pixel as int,
            u32::MAX as int,
        );
        vstd::arithmetic::mul::lemma_mul_upper_bound(
            frame_count as int,
            u32::MAX as int,
            height as int * width as int * bytes_per_pixel as int,
            u32::MAX as int * u32::MAX as int * u32::MAX as int,
        );
    }
    let frame_size128: u128 = (height as u128) * (width as u128) * (bytes_per_pixel as u128);
    let expected: u128 = (frame_count as u128) * frame_size128;
    let payload = vstd::slice::slice_subrange(data.as_slice(), 16, data.len());
    let raw = match inflate(payload) {
        Ok(v) => v,
        Err(truncated) => {
            return Err(
                Error {
                    kind: if truncated {
                        ErrorKind::UnexpectedEof
                    } else {
                        ErrorKind::Io
                    },
                },
            );
        },
    };
    if (raw.len() as u128) < expected {
        return Err(Error { kind: ErrorKind::UnexpectedEof });
    }
    if (raw.len() as u128) > expected {
        return Err(Error { kind: ErrorKind::ExpectedEof });
    }
    if frame_size128 > usize::MAX as u128 {
        return Err(Error { kind: ErrorKind::UnexpectedEof });
    }
    Ok(
        FrameArchive {
            frame_count,
            height,
            width,
            bytes_per_pixel,
            frame_size: frame_size128 as usize,
            frames: raw,
        },
    )
}

} // verus!
