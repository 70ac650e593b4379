//! Core data types shared by the capture pipeline: geometry, pixel formats,
//! canonical color kinds, and the error taxonomy.

use vstd::prelude::*;

verus! {

/// Size of a frame in pixels. Frames are always reported in "landscape", so
/// a portrait 1080x1920 frame arrives as 1920x1080 and needs to be rotated.
#[derive(Debug, Copy, Clone, PartialEq, Eq, Structural)]
pub struct Size {
    pub width: u32,
    pub height: u32,
}

/// A position in the compositor's logical coordinate space.
#[derive(Debug, Copy, Clone, PartialEq, Eq, Structural)]
pub struct Position {
    pub x: i32,
    pub y: i32,
}

/// A rectangle in the compositor's logical coordinate space.
#[derive(Debug, Copy, Clone, PartialEq, Eq, Structural)]
pub struct Region {
    pub position: Position,
    pub size: Size,
}

/// A logical region with the output transform already applied.
#[derive(Debug, Copy, Clone, PartialEq, Eq, Structural)]
pub struct LogicalRegion {
    pub inner: Region,
}

/// The output transform the compositor applied to the captured frame.
#[derive(Debug, Copy, Clone, PartialEq, Eq, Structural)]
pub enum Transform {
    Normal,
    Rotated90,
    Rotated180,
    Rotated270,
    Flipped,
    Flipped90,
    Flipped180,
    Flipped270,
}

/// Native pixel format of a compositor shared-memory buffer, as announced
/// when the buffer is negotiated. Formats outside the listed ones carry the
/// raw protocol code and are not convertible here.
#[derive(Debug, Copy, Clone, PartialEq, Eq, Structural)]
pub enum PixelFormat {
    Xbgr8888,
    Abgr8888,
    Xrgb8888,
    Argb8888,
    Bgr888,
    Xrgb2101010,
    Argb2101010,
    Xbgr2101010,
    Abgr2101010,
    Other(u32),
}

/// Canonical in-memory color representation that all converters target:
/// 8-bit RGB/RGBA bytes or 16-bit RGB/RGBA samples.
#[derive(Debug, Copy, Clone, PartialEq, Eq, Structural)]
pub enum ColorType {
    Rgb8,
    Rgba8,
    Rgb16,
    Rgba16,
}

/// Errors of the buffer and color pipeline.
///
/// Release failures of the guards are deliberately absent: they occur during
/// teardown, where propagation would mask the original error, so they are
/// swallowed there.
#[derive(Debug, Copy, Clone, PartialEq, Eq, Structural)]
pub enum Error {
    /// The buffer is smaller than its geometry implies, or its length does
    /// not fit the packing the format requires.
    BufferTooSmall,
    /// The operation was invoked on an incompatible color kind or buffer
    /// backing, or no conversion exists for the native format.
    InvalidColor,
    /// The shared-memory allocator failed; carries the raw OS error code.
    Allocation(i32),
}

} // verus!
