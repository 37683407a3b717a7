//! Verified core of a boot-splash animation player.
//!
//! The library decodes a compressed frame archive, computes the centered
//! placement of an image on a framebuffer display, and drives the state of a
//! fixed-rate presentation loop.  Device and process I/O live outside the
//! library; everything here is pure logic over plain values.

pub mod codec;
pub mod geometry;
pub mod player;
