//! Centered placement of an image on the display.
//!
//! From the display geometry and a requested image size, a `BlitPlan` fixes
//! the byte offset of the image's top-left corner and the byte width of each
//! row; the plan then drives stride-aware row writes.

use vstd::prelude::*;

verus! {

use vstd::pervasive::VecAdditionalExecFns;

/// Why a placement could not be computed.
#[derive(Debug, Clone, Copy, PartialEq, Eq, Structural)]
pub enum GeometryError {
    /// The requested image is wider or taller than the visible display, or a
    /// row of it would not fit inside one scanline.
    DoesNotFit,
    /// A byte offset of the placement does not fit in the machine's address
    /// range.
    Overflow,
}

/// The framebuffer geometry, as read from the device at open time.
#[derive(Debug, Clone, Copy, PartialEq, Eq, Structural)]
pub struct DisplayGeometry {
    /// Visible horizontal resolution in pixels.
    pub xres: usize,
    /// Visible vertical resolution in pixels.
    pub yres: usize,
    /// Color depth in bits per pixel.
    pub bits_per_pixel: usize,
    /// Horizontal offset of the visible area inside the virtual area.
    pub xoffset: usize,
    /// Vertical offset of the visible area inside the virtual area.
    pub yoffset: usize,
    /// Bytes per scanline; may exceed `xres * bytes_per_pixel` (padding).
    pub line_length: usize,
}

/// The derived placement: computed once, reused for every frame.
#[derive(Debug, Clone, Copy, PartialEq, Eq, Structural)]
pub struct BlitPlan {
    /// Device byte offset of the image's top-left corner.
    pub byte_offset: usize,
    /// Bytes of one image row: `width * bytes_per_pixel`.
    pub row_bytes: usize,
    /// Number of rows: the image height.
    pub rows: usize,
    /// Bytes per device scanline, copied from the geometry.
    pub line_length: usize,
}

impl DisplayGeometry {
    /// Byte stride of one pixel: `bits_per_pixel / 8`.
    pub open spec fn spec_bytes_per_pixel(self) -> int {
        self.bits_per_pixel as int / 8
    }

    /// Horizontal pixel position that centers an image of width `width`.
    pub open spec fn spec_x(self, width: int) -> int {
        (self.xres - width) / 2
    }

    /// Vertical pixel position that centers an image of height `height`.
    pub open spec fn spec_y(self, height: int) -> int {
        (self.yres - height) / 2
    }

    /// Bytes of one row of an image of width `width`.
    pub open spec fn spec_row_bytes(self, width: int) -> int {
        width * self.spec_bytes_per_pixel()
    }

    /// Device byte offset of the top-left corner of the centered image:
    /// `(y + yoffset) * line_length + (x + xoffset) * bytes_per_pixel`.
    pub open spec fn spec_byte_offset(self, width: int, height: int) -> int {
        (self.spec_y(height) + self.yoffset) * self.line_length
            + (self.spec_x(width) + self.xoffset) * self.spec_bytes_per_pixel()
    }

    /// Whether an image of the requested size fits the visible display: no
    /// wider, no taller, and one row no longer than one scanline.
    pub open spec fn fits(self, width: int, height: int) -> bool {
        &&& width <= self.xres
        &&& height <= self.yres
        &&& self.spec_row_bytes(width) <= self.line_length
    }

    /// Whether some byte offset of the centered placement exceeds the
    /// machine's address range (a machine limit, not a display limit).
    pub open spec fn plan_overflows(self, width: int, height: int) -> bool {
        ||| self.spec_y(height) + self.yoffset > usize::MAX
        ||| (self.spec_y(height) + self.yoffset) * self.line_length > usize::MAX
        ||| self.spec_x(width) + self.xoffset > usize::MAX
        ||| (self.spec_x(width) + self.xoffset) * self.spec_bytes_per_pixel() > usize::MAX
        ||| self.spec_byte_offset(width, height) > usize::MAX
    }

    /// Computes the centered placement of a `width` by `height` image, or
    /// fails: `DoesNotFit` when the image exceeds the visible display, and
    /// `Overflow` when a byte offset would not be representable.  Succeeds on
    /// every other input.
    pub fn writer(&self, width: usize, height: usize) -> (r: Result<FbWriter, GeometryError>)
        ensures
            !self.fits(width as int, height as int) ==> r == Err::<FbWriter, GeometryError>(
                GeometryError::DoesNotFit,
            ),
            self.fits(width as int, height as int) && self.plan_overflows(
                width as int,
                height as int,
            ) ==> r == Err::<FbWriter, GeometryError>(GeometryError::Overflow),
            self.fits(width as int, height as int) && !self.plan_overflows(
                width as int,
                height as int,
            ) ==> (r matches Ok(w) && w.plan == (BlitPlan {
                byte_offset: self.spec_byte_offset(width as int, height as int) as usize,
                row_bytes: self.spec_row_bytes(width as int) as usize,
                rows: height,
                line_length: self.line_length,
            }) && w.plan.wf()),
    {
        let bytes_per_pixel = self.bits_per_pixel / 8;
        if width > self.xres || height > self.yres {
            return Err(GeometryError::DoesNotFit);
        }
        proof {
            vstd::arithmetic::mul::lemma_mul_upper_bound(
                width as int,
                usize::MAX as int,
                bytes_per_pixel as int,
                usize::MAX as int,
            );
        }
        let row_bytes: u128 = (width as u128) * (bytes_per_pixel as u128);
        if row_bytes > self.line_length as u128 {
            return Err(GeometryError::DoesNotFit);
        }
        let x = (self.xres - width) / 2;
        let y = (self.yres - height) / 2;
        let ysum: u128 = y as u128 + self.yoffset as u128;
        if ysum > usize::MAX as u128 {
            return Err(GeometryError::Overflow);
        }
        proof {
            vstd::arithmetic::mul::lemma_mul_upper_bound(
                ysum as int,
                usize::MAX as int,
                self.line_length as int,
                usize::MAX as int,
            );
        }
        let p1: u128 = ysum * (self.line_length as u128);
        if p1 > usize::MAX as u128 {
            return Err(GeometryError::Overflow);
        }
        let xsum: u128 = x as u128 + self.xoffset as u128;
        if xsum > usize::MAX as u128 {
            return Err(GeometryError::Overflow);
        }
        proof {
            vstd::arithmetic::mul::lemma_mul_upper_bound(
                xsum as int,
                usize::MAX as int,
                bytes_per_pixel as int,
                usize::MAX as int,
            );
        }
        let p2: u128 = xsum * (bytes_per_pixel as u128);
        if p2 > usize::MAX as u128 {
            return Err(GeometryError::Overflow);
        }
        let byte_offset: u128 = p1 + p2;
        if byte_offset > usize::MAX as u128 {
            return Err(GeometryError::Overflow);
        }
        Ok(
            FbWriter {
                plan: BlitPlan {
                    byte_offset: byte_offset as usize,
                    row_bytes: row_bytes as usize,
                    rows: height,
                    line_length: self.line_length,
                },
            },
        )
    }
}

impl BlitPlan {
    /// Validity of a plan: one row fits inside one scanline, so successive
    /// rows never overlap.
    pub open spec fn wf(self) -> bool {
        self.row_bytes <= self.line_length
    }

    /// Device byte position of column `c` of row `r` of the image.
    pub open spec fn spec_row_pos(self, r: int, c: int) -> int {
        self.byte_offset + r * self.line_length + c
    }

    /// Whether device byte `i` is written when a frame is blitted.
    pub open spec fn covers(self, i: int) -> bool {
        exists|r: int, c: int|
            0 <= r < self.rows && 0 <= c < self.row_bytes && i == #[trigger] self.spec_row_pos(
                r,
                c,
            )
    }

    /// Source bytes a full frame must hold: `rows * row_bytes`.
    pub open spec fn frame_bytes_needed(self) -> int {
        self.rows * self.row_bytes
    }

    /// Device bytes the blit reaches: one past the end of the last row.
    pub open spec fn dev_bytes_needed(self) -> int {
        if self.rows == 0 {
            0
        } else {
            self.byte_offset + (self.rows - 1) * self.line_length + self.row_bytes
        }
    }
}

/// Why a frame could not be blitted.
#[derive(Debug, Clone, Copy, PartialEq, Eq, Structural)]
pub enum BlitError {
    /// The source frame holds fewer than `rows * row_bytes` bytes.
    FrameTooShort,
    /// The device ends before the last byte the plan would write.
    DeviceTooSmall,
}

/// The product of two machine-word-sized values fits comfortably in 128 bits.
proof fn lemma_usize_mul_fits_u128(x: int, y: int)
    requires
        0 <= x <= usize::MAX,
        0 <= y <= usize::MAX,
    ensures
        x * y <= 0xffff_ffff_ffff_fffe_0000_0000_0000_0001,
{
    assert(x * y <= 0xffff_ffff_ffff_fffe_0000_0000_0000_0001) by (nonlinear_arith)
        requires
            0 <= x <= 0xffff_ffff_ffff_ffff,
            0 <= y <= 0xffff_ffff_ffff_ffff,
    ;
}

/// Copies `n` bytes of `frame` starting at `src_off` to `dev` starting at
/// `dev_off`, leaving every other device byte unchanged.
fn copy_row(dev: &mut Vec<u8>, dev_off: usize, frame: &Vec<u8>, src_off: usize, n: usize)
    requires
        dev_off + n <= old(dev)@.len(),
        src_off + n <= frame@.len(),
    ensures
        final(dev)@.len() == old(dev)@.len(),
        forall|i: int|
            dev_off <= i < dev_off + n ==> #[trigger] final(dev)@[i] == frame@[src_off + i
                - dev_off],
        forall|i: int|
            0 <= i < old(dev)@.len() && !(dev_off <= i < dev_off + n)
                ==> #[trigger] final(dev)@[i] == old(dev)@[i],
{
    let ghost dev0 = dev@;
    let dlen: usize = dev.len();
    let flen: usize = frame.len();
    let mut c: usize = 0;
    while c < n
        invariant
            c <= n,
            dev@.len() == dev0.len(),
            dev0.len() == dlen,
            frame@.len() == flen,
            dev_off + n <= dlen,
            src_off + n <= flen,
            forall|i: int|
                dev_off <= i < dev_off + c ==> #[trigger] dev@[i] == frame@[src_off + i - dev_off],
            forall|i: int|
                0 <= i < dev0.len() && !(dev_off <= i < dev_off + c) ==> #[trigger] dev@[i]
                    == dev0[i],
        decreases n - c,
    {
        let val = frame[src_off + c];
        dev.set(dev_off + c, val);
        c += 1;
    }
}

impl FbWriter {
    /// Whether a frame of `frame_len` bytes holds a full image.
    fn frame_len_ok(&self, frame_len: usize) -> (ok: bool)
        ensures
            ok <==> self.plan.frame_bytes_needed() <= frame_len,
    {
        proof {
            lemma_usize_mul_fits_u128(self.plan.rows as int, self.plan.row_bytes as int);
        }
        let need: u128 = (self.plan.rows as u128) * (self.plan.row_bytes as u128);
        need <= frame_len as u128
    }

    /// Whether a device of `dev_len` bytes reaches past the last written byte.
    fn dev_len_ok(&self, dev_len: usize) -> (ok: bool)
        ensures
            ok <==> self.plan.dev_bytes_needed() <= dev_len,
    {
        if self.plan.rows == 0 {
            return true;
        }
        proof {
            lemma_usize_mul_fits_u128(self.plan.rows - 1, self.plan.line_length as int);
        }
        let rows_above: u128 = (self.plan.rows - 1) as u128;
        let need: u128 = (self.plan.byte_offset as u128) + rows_above * (self.plan.line_length
            as u128) + (self.plan.row_bytes as u128);
        need <= dev_len as u128
    }

    /// The seek-and-write operations that present one frame: for each row
    /// `r`, a device write at `byte_offset + r * line_length` of the source
    /// bytes `r * row_bytes .. (r + 1) * row_bytes`.  Returns `None` exactly
    /// when the frame or the device is too short for the plan.
    pub fn row_spans(&self, frame_len: usize, dev_len: usize) -> (r: Option<
        Vec<(usize, usize, usize)>,
    >)
        requires
            self.plan.wf(),
        ensures
            r is Some <==> (self.plan.frame_bytes_needed() <= frame_len
                && self.plan.dev_bytes_needed() <= dev_len),
            r matches Some(v) ==> {
                &&& v@.len() == self.plan.rows
                &&& forall|i: int|
                    0 <= i < v@.len() ==> (#[trigger] v@[i]).0 == self.plan.byte_offset + i
                        * self.plan.line_length && v@[i].1 == i * self.plan.row_bytes && v@[i].2
                        == v@[i].1 + self.plan.row_bytes
            },
    {
        if !self.frame_len_ok(frame_len) || !self.dev_len_ok(dev_len) {
            return None;
        }
        let mut v: Vec<(usize, usize, usize)> = Vec::new();
        let mut r: usize = 0;
        while r < self.plan.rows
            invariant
                r <= self.plan.rows,
                self.plan.wf(),
                v@.len() == r,
                self.plan.frame_bytes_needed() <= frame_len,
                self.plan.dev_bytes_needed() <= dev_len,
                forall|i: int|
                    0 <= i < r ==> (#[trigger] v@[i]).0 == self.plan.byte_offset + i
                        * self.plan.line_length && v@[i].1 == i * self.plan.row_bytes && v@[i].2
                        == v@[i].1 + self.plan.row_bytes,
            decreases self.plan.rows - r,
        {
            proof {
                vstd::arithmetic::mul::lemma_mul_inequality(
                    r as int,
                    self.plan.rows - 1,
                    self.plan.line_length as int,
                );
                vstd::arithmetic::mul::lemma_mul_inequality(
                    r + 1,
                    self.plan.rows as int,
                    self.plan.row_bytes as int,
                );
                vstd::arithmetic::mul::lemma_mul_is_distributive_add_other_way(
                    self.plan.row_bytes as int,
                    r as int,
                    1,
                );
                vstd::arithmetic::mul::lemma_mul_is_distributive_add_other_way(
                    self.plan.line_length as int,
                    r as int,
                    1,
                );
            }
            let dev_off: usize = self.plan.byte_offset + r * self.plan.line_length;
            let src_start: usize = r * self.plan.row_bytes;
            let src_end: usize = src_start + self.plan.row_bytes;
            v.push((dev_off, src_start, src_end));
            r += 1;
        }
        Some(v)
    }

    /// Blits one frame into a byte model of the device: row `r` of the source
    /// lands at `byte_offset + r * line_length`, and no byte outside the
    /// `rows` written stretches changes.  Fails, changing nothing, exactly
    /// when the frame or the device is too short for the plan.
    pub fn write(&self, dev: &mut Vec<u8>, frame: &Vec<u8>) -> (r: Result<(), BlitError>)
        requires
            self.plan.wf(),
        ensures
            final(dev)@.len() == old(dev)@.len(),
            r is Ok <==> (self.plan.frame_bytes_needed() <= frame@.len()
                && self.plan.dev_bytes_needed() <= old(dev)@.len()),
            self.plan.frame_bytes_needed() > frame@.len() ==> r == Err::<(), BlitError>(
                BlitError::FrameTooShort,
            ) && final(dev)@ == old(dev)@,
            (self.plan.frame_bytes_needed() <= frame@.len() && self.plan.dev_bytes_needed() > old(
                dev,
            )@.len()) ==> r == Err::<(), BlitError>(BlitError::DeviceTooSmall) && final(dev)@
                == old(dev)@,
            r is Ok ==> forall|rr: int, cc: int|
                0 <= rr < self.plan.rows && 0 <= cc < self.plan.row_bytes ==> final(dev)@[
                    #[trigger] self.plan.spec_row_pos(rr, cc)
                ] == frame@[rr * self.plan.row_bytes + cc],
            forall|i: int|
                0 <= i < old(dev)@.len() && !self.plan.covers(i) ==> final(dev)@[i] == old(
                    dev,
                )@[i],
    {
        if !self.frame_len_ok(frame.len()) {
            return Err(BlitError::FrameTooShort);
        }
        if !self.dev_len_ok(dev.len()) {
            return Err(BlitError::DeviceTooSmall);
        }
        let ghost dev0 = dev@;
        let dlen: usize = dev.len();
        let flen: usize = frame.len();
        let mut rr: usize = 0;
        while rr < self.plan.rows
            invariant
                rr <= self.plan.rows,
                self.plan.wf(),
                dev@.len() == dev0.len(),
                dev0.len() == dlen,
                frame@.len() == flen,
                self.plan.frame_bytes_needed() <= flen,
                self.plan.dev_bytes_needed() <= dlen,
                forall|r2: int, cc: int|
                    0 <= r2 < rr && 0 <= cc < self.plan.row_bytes ==> dev@[
                        #[trigger] self.plan.spec_row_pos(r2, cc)
                    ] == frame@[r2 * self.plan.row_bytes + cc],
                forall|i: int| 0 <= i < dev0.len() && !self.plan.covers(i) ==> dev@[i] == dev0[i],
            decreases self.plan.rows - rr,
        {
            proof {
                vstd::arithmetic::mul::lemma_mul_inequality(
                    rr as int,
                    self.plan.rows - 1,
                    self.plan.line_length as int,
                );
                vstd::arithmetic::mul::lemma_mul_inequality(
                    rr + 1,
                    self.plan.rows as int,
                    self.plan.row_bytes as int,
                );
                vstd::arithmetic::mul::lemma_mul_is_distributive_add_other_way(
                    self.plan.row_bytes as int,
                    rr as int,
                    1,
                );
            }
            let dev_off: usize = self.plan.byte_offset + rr * self.plan.line_length;
            let src_start: usize = rr * self.plan.row_bytes;
            copy_row(dev, dev_off, frame, src_start, self.plan.row_bytes);
            proof {
                assert forall|r2: int, cc: int|
                    0 <= r2 < rr && 0 <= cc < self.plan.row_bytes implies self.plan.spec_row_pos(
                    r2,
                    cc,
                ) < dev_off by {
                    assert(r2 * self.plan.line_length + cc < rr as int
                        * self.plan.line_length) by (nonlinear_arith)
                        requires
                            0 <= r2 < rr,
                            0 <= cc < self.plan.row_bytes,
                            self.plan.row_bytes <= self.plan.line_length,
                    ;
                }
                assert forall|i: int|
                    dev_off <= i < dev_off + self.plan.row_bytes implies self.plan.covers(i) by {
                    assert(i == self.plan.spec_row_pos(rr as int, i - dev_off));
                }
            }
            rr += 1;
        }
        Ok(())
    }
}

/// Writes frames at the placement fixed by a `BlitPlan`.
#[derive(Debug, Clone, Copy, PartialEq, Eq, Structural)]
pub struct FbWriter {
    pub plan: BlitPlan,
}

} // verus!
