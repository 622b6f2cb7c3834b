//! Control-block codec.
//!
//! The host publishes desired window state in a fixed-layout 64-byte
//! little-endian control block. This module decodes that block into a typed
//! frame. Decoding is pure: it knows nothing about validity beyond the
//! buffer being long enough, which callers must guard.

use vstd::prelude::*;

verus! {

/// Value of the `magic` field that identifies the protocol family.
pub const IPC_MAGIC: u32 = 0x3149_5543;

/// The protocol version this engine understands.
pub const IPC_VERSION: u32 = 1;

/// Size of the control block in bytes.
pub const IPC_SIZE: usize = 64;

/// The unsigned 32-bit little-endian value stored at offset `off` of `b`.
pub open spec fn u32_le_at(b: Seq<u8>, off: int) -> u32 {
    (b[off] + b[off + 1] * 0x100 + b[off + 2] * 0x1_0000 + b[off + 3] * 0x100_0000) as u32
}

/// The signed 32-bit little-endian (two's complement) value stored at
/// offset `off` of `b`.
pub open spec fn i32_le_at(b: Seq<u8>, off: int) -> i32 {
    if u32_le_at(b, off) < 0x8000_0000 {
        u32_le_at(b, off) as i32
    } else {
        (u32_le_at(b, off) - 0x1_0000_0000) as i32
    }
}

/// The unsigned 64-bit little-endian value stored at offset `off` of `b`.
pub open spec fn u64_le_at(b: Seq<u8>, off: int) -> u64 {
    (b[off] + b[off + 1] * 0x100 + b[off + 2] * 0x1_0000 + b[off + 3] * 0x100_0000
        + b[off + 4] * 0x1_0000_0000 + b[off + 5] * 0x100_0000_0000
        + b[off + 6] * 0x1_0000_0000_0000 + b[off + 7] * 0x100_0000_0000_0000) as u64
}

/// The signed 64-bit little-endian (two's complement) value stored at
/// offset `off` of `b`.
pub open spec fn i64_le_at(b: Seq<u8>, off: int) -> i64 {
    if u64_le_at(b, off) < 0x8000_0000_0000_0000 {
        u64_le_at(b, off) as i64
    } else {
        (u64_le_at(b, off) - 0x1_0000_0000_0000_0000) as i64
    }
}

/// Reads the unsigned 32-bit little-endian value at `offset`.
pub fn read_u32_le(buf: &[u8], offset: usize) -> (r: u32)
    requires
        offset + 4 <= buf@.len(),
    ensures
        r == u32_le_at(buf@, offset as int),
{
    let b0 = buf[offset] as u32;
    let b1 = buf[offset + 1] as u32;
    let b2 = buf[offset + 2] as u32;
    let b3 = buf[offset + 3] as u32;
    b0 + b1 * 0x100 + b2 * 0x1_0000 + b3 * 0x100_0000
}

/// Reads the signed 32-bit little-endian value at `offset`.
pub fn read_i32_le(buf: &[u8], offset: usize) -> (r: i32)
    requires
        offset + 4 <= buf@.len(),
    ensures
        r == i32_le_at(buf@, offset as int),
{
    let u = read_u32_le(buf, offset);
    if u < 0x8000_0000 {
        u as i32
    } else {
        ((u as i64) - 0x1_0000_0000) as i32
    }
}

/// Reads the signed 64-bit little-endian value at `offset`.
pub fn read_i64_le(buf: &[u8], offset: usize) -> (r: i64)
    requires
        offset + 8 <= buf@.len(),
    ensures
        r == i64_le_at(buf@, offset as int),
{
    proof {
        // A slice is never longer than the address space, so `offset + 4`
        // fits in usize.
        assert(offset + 8 <= vstd::slice::spec_slice_len(buf)) by {
            broadcast use vstd::slice::axiom_spec_len;

        }
    }
    let lo = read_u32_le(buf, offset) as u64;
    let hi = read_u32_le(buf, offset + 4) as u64;
    let u: u64 = lo + hi * 0x1_0000_0000;
    assert(u == u64_le_at(buf@, offset as int));
    if u < 0x8000_0000_0000_0000 {
        u as i64
    } else {
        ((u - 0x8000_0000_0000_0000) as i64) + i64::MIN
    }
}

/// One decoded snapshot of the control block.
#[derive(Clone, Copy, PartialEq, Eq, Structural, Debug)]
pub struct Frame {
    /// Protocol family marker; a block whose magic differs is unreadable.
    pub magic: u32,
    /// Protocol version; a block of another version is unreadable.
    pub version: u32,
    /// Monotonic publish counter; zero means no frame was published yet.
    pub seq: u32,
    /// Desired window left coordinate, physical pixels.
    pub x: i32,
    /// Desired window top coordinate, physical pixels.
    pub y: i32,
    /// Desired window width, physical pixels.
    pub w: i32,
    /// Desired window height, physical pixels.
    pub h: i32,
    /// Bit 0: the window should be visible. Bit 1: the host wants the
    /// window kept foremost ("active").
    pub flags: u32,
    /// Native handle of the window that should own this one; zero for none.
    pub owner: i64,
    /// Monotonic counter bumped each time a new drag payload is available.
    pub drop_seq: u32,
}

/// The frame that the 64-byte buffer `b` encodes.
pub open spec fn frame_at(b: Seq<u8>) -> Frame {
    Frame {
        magic: u32_le_at(b, 0),
        version: u32_le_at(b, 4),
        seq: u32_le_at(b, 8),
        x: i32_le_at(b, 12),
        y: i32_le_at(b, 16),
        w: i32_le_at(b, 20),
        h: i32_le_at(b, 24),
        flags: u32_le_at(b, 32),
        owner: i64_le_at(b, 40),
        drop_seq: u32_le_at(b, 48),
    }
}

impl Frame {
    /// The host asks for the window to be visible.
    pub open spec fn spec_visible(self) -> bool {
        self.flags & 1 != 0
    }

    /// The host wants the window kept foremost while shown.
    pub open spec fn spec_active(self) -> bool {
        self.flags & 2 != 0
    }

    /// The header marks the block as readable: right family, right version.
    pub open spec fn spec_header_ok(self) -> bool {
        self.magic == IPC_MAGIC && self.version == IPC_VERSION
    }

    /// Whether the visible bit of `flags` is set.
    pub fn visible(&self) -> (r: bool)
        ensures
            r == self.spec_visible(),
    {
        self.flags & 1 != 0
    }

    /// Whether the active bit of `flags` is set.
    pub fn active(&self) -> (r: bool)
        ensures
            r == self.spec_active(),
    {
        self.flags & 2 != 0
    }

    /// Whether magic and version match the constants this engine supports.
    pub fn header_ok(&self) -> (r: bool)
        ensures
            r == self.spec_header_ok(),
    {
        self.magic == IPC_MAGIC && self.version == IPC_VERSION
    }
}

/// Decodes the control block. Pure: every field is read from its fixed
/// offset, and nothing is checked beyond the length the caller guards.
pub fn decode_frame(buf: &[u8]) -> (r: Frame)
    requires
        buf@.len() >= IPC_SIZE,
    ensures
        r == frame_at(buf@),
{
    Frame {
        magic: read_u32_le(buf, 0),
        version: read_u32_le(buf, 4),
        seq: read_u32_le(buf, 8),
        x: read_i32_le(buf, 12),
        y: read_i32_le(buf, 16),
        w: read_i32_le(buf, 20),
        h: read_i32_le(buf, 24),
        flags: read_u32_le(buf, 32),
        owner: read_i64_le(buf, 40),
        drop_seq: read_u32_le(buf, 48),
    }
}

} // verus!
