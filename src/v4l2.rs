//! The fixed-size records of the V4L2 ioctl interface (64-bit, little-endian ABI).
//!
//! Each record is held as plain fields; `to_bytes` lays it out exactly as the kernel
//! expects it (field order, padding, reserved bytes zeroed) and `from_bytes` reads the
//! driver's answer back.
use vstd::prelude::*;

use crate::bytes::{
    lemma_read_written_u32, lemma_read_written_u64,
    fixed, le32, le64, push_fixed, push_u32, push_u64, push_zeros, read_bytes, read_u32, read_u64,
    u32_at, u64_at, zeros,
};

verus! {

/// Buffer type of a single-planar video capture stream.
pub const BUF_TYPE_VIDEO_CAPTURE: u32 = 1;
pub const FMT_FLAG_COMPRESSED: u32 = 1;
pub const FMT_FLAG_EMULATED: u32 = 2;
pub const FRMIVAL_TYPE_DISCRETE: u32 = 1;
pub const FRMSIZE_TYPE_DISCRETE: u32 = 1;
/// Buffers are allocated by the driver and memory-mapped by the application.
pub const MEMORY_MMAP: u32 = 1;

/// Mask of the class bits of a control id.
pub const ID2CLASS: u32 = 0x0fff0000;
/// Flag of a control id asking for the first control after that id.
pub const NEXT_CTRL: u32 = 0x80000000;

// Control types.
pub const CTRL_TYPE_INTEGER: u32 = 1;
pub const CTRL_TYPE_BOOLEAN: u32 = 2;
pub const CTRL_TYPE_MENU: u32 = 3;
pub const CTRL_TYPE_BUTTON: u32 = 4;
pub const CTRL_TYPE_INTEGER64: u32 = 5;
pub const CTRL_TYPE_CTRL_CLASS: u32 = 6;
pub const CTRL_TYPE_STRING: u32 = 7;
pub const CTRL_TYPE_BITMASK: u32 = 8;
pub const CTRL_TYPE_INTEGER_MENU: u32 = 9;

// Request codes, of the 64-bit ABI (see `request_code`).
pub const VIDIOC_ENUM_FMT: usize = 3225441794;
pub const VIDIOC_ENUM_FRAMEINTERVALS: usize = 3224655435;
pub const VIDIOC_ENUM_FRAMESIZES: usize = 3224131146;
pub const VIDIOC_G_CTRL: usize = 3221771803;
pub const VIDIOC_QUERYCTRL: usize = 3225703972;
pub const VIDIOC_QUERY_EXT_CTRL: usize = 3236451943;
pub const VIDIOC_QUERYMENU: usize = 3224131109;
pub const VIDIOC_REQBUFS: usize = 3222558216;
pub const VIDIOC_S_PARM: usize = 3234616854;
pub const VIDIOC_STREAMOFF: usize = 1074026003;
pub const VIDIOC_STREAMON: usize = 1074026002;
pub const VIDIOC_DQBUF: usize = 3227014673;
pub const VIDIOC_QBUF: usize = 3227014671;
pub const VIDIOC_QUERYBUF: usize = 3227014665;
pub const VIDIOC_S_FMT: usize = 3234878981;
pub const VIDIOC_G_EXT_CTRLS: usize = 3223344711;
pub const VIDIOC_S_EXT_CTRLS: usize = 3223344712;

/// Whether pointers and `long` take eight bytes: the 64-bit ABI. A few records and the
/// request codes that encode their sizes depend on it.
pub open spec fn wide() -> bool {
    vstd::layout::size_of::<usize>() == 8
}

pub fn is_wide() -> (r: bool)
    ensures
        r == wide(),
{
    core::mem::size_of::<usize>() == 8
}

/// Size of a `Format`: 208 bytes on the 64-bit ABI, 204 on the 32-bit one.
pub open spec fn format_size() -> nat {
    if wide() {
        208
    } else {
        204
    }
}

/// Size of a `Buffer`: 88 bytes on the 64-bit ABI, 68 on the 32-bit one.
pub open spec fn buffer_size() -> nat {
    if wide() {
        88
    } else {
        68
    }
}

/// Size of an `ExtControls`: 32 bytes on the 64-bit ABI, 24 on the 32-bit one.
pub open spec fn ext_controls_size() -> nat {
    if wide() {
        32
    } else {
        24
    }
}

/// Offset of the pixel format in a `Format`: after padding to eight bytes on the 64-bit ABI.
pub open spec fn pix_offset() -> int {
    if wide() {
        8
    } else {
        4
    }
}

// Request codes whose value differs on the 32-bit ABI.
pub const VIDIOC_DQBUF_32: usize = 3225703953;
pub const VIDIOC_QBUF_32: usize = 3225703951;
pub const VIDIOC_QUERYBUF_32: usize = 3225703945;
pub const VIDIOC_S_FMT_32: usize = 3234616837;
pub const VIDIOC_G_EXT_CTRLS_32: usize = 3222820423;
pub const VIDIOC_S_EXT_CTRLS_32: usize = 3222820424;

/// The request code to use for `code` (a code of the 64-bit ABI) on this ABI.
pub open spec fn spec_request_code(code: usize) -> usize {
    if wide() {
        code
    } else if code == VIDIOC_DQBUF {
        VIDIOC_DQBUF_32
    } else if code == VIDIOC_QBUF {
        VIDIOC_QBUF_32
    } else if code == VIDIOC_QUERYBUF {
        VIDIOC_QUERYBUF_32
    } else if code == VIDIOC_S_FMT {
        VIDIOC_S_FMT_32
    } else if code == VIDIOC_G_EXT_CTRLS {
        VIDIOC_G_EXT_CTRLS_32
    } else if code == VIDIOC_S_EXT_CTRLS {
        VIDIOC_S_EXT_CTRLS_32
    } else {
        code
    }
}

pub fn request_code(code: usize) -> (r: usize)
    ensures
        r == spec_request_code(code),
{
    if is_wide() {
        code
    } else if code == VIDIOC_DQBUF {
        VIDIOC_DQBUF_32
    } else if code == VIDIOC_QBUF {
        VIDIOC_QBUF_32
    } else if code == VIDIOC_QUERYBUF {
        VIDIOC_QUERYBUF_32
    } else if code == VIDIOC_S_FMT {
        VIDIOC_S_FMT_32
    } else if code == VIDIOC_G_EXT_CTRLS {
        VIDIOC_G_EXT_CTRLS_32
    } else if code == VIDIOC_S_EXT_CTRLS {
        VIDIOC_S_EXT_CTRLS_32
    } else {
        code
    }
}

// Sizes of the records in bytes, where they are the same on both ABIs.
pub const REQUEST_BUFFERS_SIZE: usize = 20;
pub const FMT_DESC_SIZE: usize = 64;
pub const STREAM_PARM_SIZE: usize = 204;
pub const FRMSIZEENUM_SIZE: usize = 44;
pub const FRMIVALENUM_SIZE: usize = 52;
pub const QUERY_CTRL_SIZE: usize = 68;
pub const QUERY_EXT_CTRL_SIZE: usize = 232;
pub const QUERY_MENU_SIZE: usize = 44;
pub const CONTROL_SIZE: usize = 8;
pub const EXT_CONTROL_SIZE: usize = 20;
/// Size of the name and description fields.
pub const NAME_SIZE: usize = 32;

/// Image format of a capture stream.
#[derive(Clone, Copy)]
pub struct Format {
    pub ftype: u32,
    pub fmt: PixFormat,
}

impl Format {
    pub open spec fn spec_bytes(self) -> Seq<u8> {
        le32(self.ftype) + zeros((pix_offset() - 4) as nat) + self.fmt.spec_bytes() + zeros(156)
    }

    pub open spec fn parsed(self, b: Seq<u8>) -> bool {
        self.ftype == u32_at(b, 0) && self.fmt.parsed(b, pix_offset())
    }

    pub open spec fn new_spec(resolution: (u32, u32), fourcc: u32, field: u32) -> Format {
        Format { ftype: BUF_TYPE_VIDEO_CAPTURE, fmt: PixFormat::spec_new(resolution, fourcc, field) }
    }

    pub fn new(resolution: (u32, u32), fourcc: u32, field: u32) -> (r: Format)
        ensures
            r == Format::new_spec(resolution, fourcc, field),
    {
        Format { ftype: BUF_TYPE_VIDEO_CAPTURE, fmt: PixFormat::new(resolution, fourcc, field) }
    }

    pub fn to_bytes(&self) -> (r: Vec<u8>)
        ensures
            r@ == self.spec_bytes(),
            r@.len() == format_size(),
    {
        let mut out: Vec<u8> = Vec::new();
        push_u32(&mut out, self.ftype);
        if is_wide() {
            push_zeros(&mut out, 4);
        }
        self.fmt.write(&mut out);
        push_zeros(&mut out, 156);
        assert(out@ =~= self.spec_bytes());
        out
    }

    pub fn from_bytes(b: &[u8]) -> (r: Format)
        requires
            b@.len() == format_size(),
        ensures
            r.parsed(b@),
    {
        let off: usize = if is_wide() { 8 } else { 4 };
        Format { ftype: read_u32(b, 0), fmt: PixFormat::read(b, off) }
    }
}

/// Single-planar pixel format.
#[derive(Clone, Copy)]
pub struct PixFormat {
    pub width: u32,
    pub height: u32,
    pub pixelformat: u32,
    pub field: u32,
    pub bytesperline: u32,
    pub sizeimage: u32,
    pub colorspace: u32,
    pub private: u32,
    pub flags: u32,
    pub ycbcr_enc: u32,
    pub quantization: u32,
}

impl PixFormat {
    pub open spec fn spec_new(resolution: (u32, u32), fourcc: u32, field: u32) -> PixFormat {
        PixFormat {
            width: resolution.0,
            height: resolution.1,
            pixelformat: fourcc,
            field,
            bytesperline: 0,
            sizeimage: 0,
            colorspace: 0,
            private: 0,
            flags: 0,
            ycbcr_enc: 0,
            quantization: 0,
        }
    }

    pub open spec fn spec_bytes(self) -> Seq<u8> {
        le32(self.width) + le32(self.height) + le32(self.pixelformat) + le32(self.field) + le32(
            self.bytesperline,
        ) + le32(self.sizeimage) + le32(self.colorspace) + le32(self.private) + le32(self.flags)
            + le32(self.ycbcr_enc) + le32(self.quantization)
    }

    pub open spec fn parsed(self, b: Seq<u8>, off: int) -> bool {
        &&& self.width == u32_at(b, off)
        &&& self.height == u32_at(b, off + 4)
        &&& self.pixelformat == u32_at(b, off + 8)
        &&& self.field == u32_at(b, off + 12)
        &&& self.bytesperline == u32_at(b, off + 16)
        &&& self.sizeimage == u32_at(b, off + 20)
        &&& self.colorspace == u32_at(b, off + 24)
        &&& self.private == u32_at(b, off + 28)
        &&& self.flags == u32_at(b, off + 32)
        &&& self.ycbcr_enc == u32_at(b, off + 36)
        &&& self.quantization == u32_at(b, off + 40)
    }

    pub fn new(resolution: (u32, u32), fourcc: u32, field: u32) -> (r: PixFormat)
        ensures
            r == PixFormat::spec_new(resolution, fourcc, field),
    {
        PixFormat {
            width: resolution.0,
            height: resolution.1,
            pixelformat: fourcc,
            field,
            bytesperline: 0,
            sizeimage: 0,
            colorspace: 0,
            private: 0,
            flags: 0,
            ycbcr_enc: 0,
            quantization: 0,
        }
    }

    pub fn write(&self, out: &mut Vec<u8>)
        ensures
            final(out)@ == old(out)@ + self.spec_bytes(),
    {
        let ghost start = out@;
        push_u32(out, self.width);
        push_u32(out, self.height);
        push_u32(out, self.pixelformat);
        push_u32(out, self.field);
        push_u32(out, self.bytesperline);
        push_u32(out, self.sizeimage);
        push_u32(out, self.colorspace);
        push_u32(out, self.private);
        push_u32(out, self.flags);
        push_u32(out, self.ycbcr_enc);
        push_u32(out, self.quantization);
        assert(out@ =~= start + self.spec_bytes());
    }

    pub fn read(b: &[u8], off: usize) -> (r: PixFormat)
        requires
            off + 44 <= b.len(),
        ensures
            r.parsed(b@, off as int),
    {
        PixFormat {
            width: read_u32(b, off),
            height: read_u32(b, off + 4),
            pixelformat: read_u32(b, off + 8),
            field: read_u32(b, off + 12),
            bytesperline: read_u32(b, off + 16),
            sizeimage: read_u32(b, off + 20),
            colorspace: read_u32(b, off + 24),
            private: read_u32(b, off + 28),
            flags: read_u32(b, off + 32),
            ycbcr_enc: read_u32(b, off + 36),
            quantization: read_u32(b, off + 40),
        }
    }
}

/// Request to reserve a number of driver-owned, memory-mapped buffers.
pub struct RequestBuffers {
    pub count: u32,
    pub btype: u32,
    pub memory: u32,
}

impl RequestBuffers {
    pub open spec fn spec_bytes(self) -> Seq<u8> {
        le32(self.count) + le32(self.btype) + le32(self.memory) + zeros(8)
    }

    pub fn new(nbuffers: u32) -> (r: RequestBuffers)
        ensures
            r.count == nbuffers,
            r.btype == BUF_TYPE_VIDEO_CAPTURE,
            r.memory == MEMORY_MMAP,
    {
        RequestBuffers { count: nbuffers, btype: BUF_TYPE_VIDEO_CAPTURE, memory: MEMORY_MMAP }
    }

    pub fn to_bytes(&self) -> (r: Vec<u8>)
        ensures
            r@ == self.spec_bytes(),
            r@.len() == REQUEST_BUFFERS_SIZE,
    {
        let mut out: Vec<u8> = Vec::new();
        push_u32(&mut out, self.count);
        push_u32(&mut out, self.btype);
        push_u32(&mut out, self.memory);
        push_zeros(&mut out, 8);
        assert(out@ =~= self.spec_bytes());
        out
    }
}

/// Time of a buffer, as the kernel's `timeval`.
#[derive(Clone, Copy)]
pub struct Timeval {
    pub tv_sec: i64,
    pub tv_usec: i64,
}

/// SMPTE time code of a buffer.
#[derive(Clone, Copy)]
pub struct TimeCode {
    pub ttype: u32,
    pub flags: u32,
    pub frames: u8,
    pub seconds: u8,
    pub minutes: u8,
    pub hours: u8,
    pub userbits: u32,
}

impl TimeCode {
    pub open spec fn spec_bytes(self) -> Seq<u8> {
        le32(self.ttype) + le32(self.flags) + seq![self.frames, self.seconds, self.minutes, self.hours]
            + le32(self.userbits)
    }

    pub open spec fn parsed(self, b: Seq<u8>, off: int) -> bool {
        &&& self.ttype == u32_at(b, off)
        &&& self.flags == u32_at(b, off + 4)
        &&& self.frames == b[off + 8]
        &&& self.seconds == b[off + 9]
        &&& self.minutes == b[off + 10]
        &&& self.hours == b[off + 11]
        &&& self.userbits == u32_at(b, off + 12)
    }

    pub fn write(&self, out: &mut Vec<u8>)
        ensures
            final(out)@ == old(out)@ + self.spec_bytes(),
    {
        let ghost start = out@;
        push_u32(out, self.ttype);
        push_u32(out, self.flags);
        out.push(self.frames);
        out.push(self.seconds);
        out.push(self.minutes);
        out.push(self.hours);
        push_u32(out, self.userbits);
        assert(out@ =~= start + self.spec_bytes());
    }

    pub fn read(b: &[u8], off: usize) -> (r: TimeCode)
        requires
            off + 16 <= b.len(),
        ensures
            r.parsed(b@, off as int),
    {
        TimeCode {
            ttype: read_u32(b, off),
            flags: read_u32(b, off + 4),
            frames: b[off + 8],
            seconds: b[off + 9],
            minutes: b[off + 10],
            hours: b[off + 11],
            userbits: read_u32(b, off + 12),
        }
    }
}

/// A buffer of the driver's queue, as queried, enqueued and dequeued.
#[derive(Clone, Copy)]
pub struct Buffer {
    pub index: u32,
    pub btype: u32,
    pub bytesused: u32,
    pub flags: u32,
    pub field: u32,
    pub timestamp: Timeval,
    pub timecode: TimeCode,
    pub sequence: u32,
    pub memory: u32,
    /// Offset of the buffer in the device's memory (the token to map it with).
    pub m: u64,
    pub length: u32,
    pub input: u32,
}

impl Buffer {
    /// On the 32-bit ABI the two words of the time and the offset `m` take four bytes each.
    pub open spec fn spec_bytes(self) -> Seq<u8> {
        let head = le32(self.index) + le32(self.btype) + le32(self.bytesused) + le32(self.flags)
            + le32(self.field);
        if wide() {
            head + zeros(4) + le64(self.timestamp.tv_sec as u64) + le64(
                self.timestamp.tv_usec as u64,
            ) + self.timecode.spec_bytes() + le32(self.sequence) + le32(self.memory) + le64(self.m)
                + le32(self.length) + le32(self.input) + zeros(8)
        } else {
            head + le32(self.timestamp.tv_sec as u32) + le32(self.timestamp.tv_usec as u32)
                + self.timecode.spec_bytes() + le32(self.sequence) + le32(self.memory) + le32(
                self.m as u32,
            ) + le32(self.length) + le32(self.input) + zeros(4)
        }
    }

    pub open spec fn parsed(self, b: Seq<u8>) -> bool {
        &&& self.index == u32_at(b, 0)
        &&& self.btype == u32_at(b, 4)
        &&& self.bytesused == u32_at(b, 8)
        &&& self.flags == u32_at(b, 12)
        &&& self.field == u32_at(b, 16)
        &&& wide() ==> {
            &&& self.timestamp.tv_sec == u64_at(b, 24) as i64
            &&& self.timestamp.tv_usec == u64_at(b, 32) as i64
            &&& self.timecode.parsed(b, 40)
            &&& self.sequence == u32_at(b, 56)
            &&& self.memory == u32_at(b, 60)
            &&& self.m == u64_at(b, 64)
            &&& self.length == u32_at(b, 72)
            &&& self.input == u32_at(b, 76)
        }
        &&& !wide() ==> {
            &&& self.timestamp.tv_sec == u32_at(b, 20) as i32 as i64
            &&& self.timestamp.tv_usec == u32_at(b, 24) as i32 as i64
            &&& self.timecode.parsed(b, 28)
            &&& self.sequence == u32_at(b, 44)
            &&& self.memory == u32_at(b, 48)
            &&& self.m == u32_at(b, 52) as u64
            &&& self.length == u32_at(b, 56)
            &&& self.input == u32_at(b, 60)
        }
    }

    /// A capture buffer of mapped memory, every other field zero.
    pub open spec fn spec_new(index: u32) -> Buffer {
        Buffer {
            index,
            btype: BUF_TYPE_VIDEO_CAPTURE,
            bytesused: 0,
            flags: 0,
            field: 0,
            timestamp: Timeval { tv_sec: 0, tv_usec: 0 },
            timecode: TimeCode {
                ttype: 0,
                flags: 0,
                frames: 0,
                seconds: 0,
                minutes: 0,
                hours: 0,
                userbits: 0,
            },
            sequence: 0,
            memory: MEMORY_MMAP,
            m: 0,
            length: 0,
            input: 0,
        }
    }

    pub fn new() -> (r: Buffer)
        ensures
            r == Buffer::spec_new(0),
    {
        Buffer::with_index(0)
    }

    pub fn with_index(index: u32) -> (r: Buffer)
        ensures
            r == Buffer::spec_new(index),
    {
        Buffer {
            index,
            btype: BUF_TYPE_VIDEO_CAPTURE,
            bytesused: 0,
            flags: 0,
            field: 0,
            timestamp: Timeval { tv_sec: 0, tv_usec: 0 },
            timecode: TimeCode {
                ttype: 0,
                flags: 0,
                frames: 0,
                seconds: 0,
                minutes: 0,
                hours: 0,
                userbits: 0,
            },
            sequence: 0,
            memory: MEMORY_MMAP,
            m: 0,
            length: 0,
            input: 0,
        }
    }

    pub fn to_bytes(&self) -> (r: Vec<u8>)
        ensures
            r@ == self.spec_bytes(),
            r@.len() == buffer_size(),
    {
        let mut out: Vec<u8> = Vec::new();
        push_u32(&mut out, self.index);
        push_u32(&mut out, self.btype);
        push_u32(&mut out, self.bytesused);
        push_u32(&mut out, self.flags);
        push_u32(&mut out, self.field);
        if is_wide() {
            push_zeros(&mut out, 4);
            push_u64(&mut out, self.timestamp.tv_sec as u64);
            push_u64(&mut out, self.timestamp.tv_usec as u64);
            self.timecode.write(&mut out);
            push_u32(&mut out, self.sequence);
            push_u32(&mut out, self.memory);
            push_u64(&mut out, self.m);
            push_u32(&mut out, self.length);
            push_u32(&mut out, self.input);
            push_zeros(&mut out, 8);
        } else {
            push_u32(&mut out, self.timestamp.tv_sec as u32);
            push_u32(&mut out, self.timestamp.tv_usec as u32);
            self.timecode.write(&mut out);
            push_u32(&mut out, self.sequence);
            push_u32(&mut out, self.memory);
            push_u32(&mut out, self.m as u32);
            push_u32(&mut out, self.length);
            push_u32(&mut out, self.input);
            push_zeros(&mut out, 4);
        }
        assert(out@ =~= self.spec_bytes());
        out
    }

    pub fn from_bytes(b: &[u8]) -> (r: Buffer)
        requires
            b@.len() == buffer_size(),
        ensures
            r.parsed(b@),
    {
        if !is_wide() {
            return Buffer {
                index: read_u32(b, 0),
                btype: read_u32(b, 4),
                bytesused: read_u32(b, 8),
                flags: read_u32(b, 12),
                field: read_u32(b, 16),
                timestamp: Timeval {
                    tv_sec: read_u32(b, 20) as i32 as i64,
                    tv_usec: read_u32(b, 24) as i32 as i64,
                },
                timecode: TimeCode::read(b, 28),
                sequence: read_u32(b, 44),
                memory: read_u32(b, 48),
                m: read_u32(b, 52) as u64,
                length: read_u32(b, 56),
                input: read_u32(b, 60),
            };
        }
        Buffer {
            index: read_u32(b, 0),
            btype: read_u32(b, 4),
            bytesused: read_u32(b, 8),
            flags: read_u32(b, 12),
            field: read_u32(b, 16),
            timestamp: Timeval { tv_sec: read_u64(b, 24) as i64, tv_usec: read_u64(b, 32) as i64 },
            timecode: TimeCode::read(b, 40),
            sequence: read_u32(b, 56),
            memory: read_u32(b, 60),
            m: read_u64(b, 64),
            length: read_u32(b, 72),
            input: read_u32(b, 76),
        }
    }
}

/// Description of one pixel format of the device.
pub struct FmtDesc {
    pub index: u32,
    pub ftype: u32,
    pub flags: u32,
    pub description: Vec<u8>,
    pub pixelformat: u32,
}

impl FmtDesc {
    pub open spec fn spec_bytes(self) -> Seq<u8> {
        le32(self.index) + le32(self.ftype) + le32(self.flags) + fixed(self.description@, 32)
            + le32(self.pixelformat) + zeros(16)
    }

    pub open spec fn parsed(self, b: Seq<u8>) -> bool {
        &&& self.index == u32_at(b, 0)
        &&& self.ftype == u32_at(b, 4)
        &&& self.flags == u32_at(b, 8)
        &&& self.description@ == b.subrange(12, 44)
        &&& self.pixelformat == u32_at(b, 44)
    }

    /// The query for the format at `index` of a capture stream.
    pub fn new(index: u32) -> (r: FmtDesc)
        ensures
            r.index == index,
            r.ftype == BUF_TYPE_VIDEO_CAPTURE,
            r.flags == 0,
            r.description@ == zeros(32),
            r.pixelformat == 0,
    {
        let mut description: Vec<u8> = Vec::new();
        push_zeros(&mut description, NAME_SIZE);
        FmtDesc { index, ftype: BUF_TYPE_VIDEO_CAPTURE, flags: 0, description, pixelformat: 0 }
    }

    pub fn to_bytes(&self) -> (r: Vec<u8>)
        ensures
            r@ == self.spec_bytes(),
            r@.len() == FMT_DESC_SIZE,
    {
        let mut out: Vec<u8> = Vec::new();
        push_u32(&mut out, self.index);
        push_u32(&mut out, self.ftype);
        push_u32(&mut out, self.flags);
        push_fixed(&mut out, &self.description, NAME_SIZE);
        push_u32(&mut out, self.pixelformat);
        push_zeros(&mut out, 16);
        assert(out@ =~= self.spec_bytes());
        out
    }

    pub fn from_bytes(b: &[u8]) -> (r: FmtDesc)
        requires
            b@.len() == FMT_DESC_SIZE,
        ensures
            r.parsed(b@),
    {
        FmtDesc {
            index: read_u32(b, 0),
            ftype: read_u32(b, 4),
            flags: read_u32(b, 8),
            description: read_bytes(b, 12, NAME_SIZE),
            pixelformat: read_u32(b, 44),
        }
    }
}

/// A rational number of seconds.
#[derive(Clone, Copy, PartialEq, Eq, Structural)]
pub struct Fract {
    pub numerator: u32,
    pub denominator: u32,
}

/// Streaming parameters of a capture stream.
pub struct CaptureParm {
    pub capability: u32,
    pub capturemode: u32,
    pub timeperframe: Fract,
    pub extendedmode: u32,
    pub readbuffers: u32,
}

impl CaptureParm {
    pub open spec fn spec_bytes(self) -> Seq<u8> {
        le32(self.capability) + le32(self.capturemode) + le32(self.timeperframe.numerator) + le32(
            self.timeperframe.denominator,
        ) + le32(self.extendedmode) + le32(self.readbuffers) + zeros(16)
    }

    pub open spec fn parsed(self, b: Seq<u8>, off: int) -> bool {
        &&& self.capability == u32_at(b, off)
        &&& self.capturemode == u32_at(b, off + 4)
        &&& self.timeperframe.numerator == u32_at(b, off + 8)
        &&& self.timeperframe.denominator == u32_at(b, off + 12)
        &&& self.extendedmode == u32_at(b, off + 16)
        &&& self.readbuffers == u32_at(b, off + 20)
    }
}

/// Stream parameters: here, the time per frame.
pub struct StreamParm {
    pub ptype: u32,
    pub parm: CaptureParm,
}

impl StreamParm {
    pub open spec fn spec_bytes(self) -> Seq<u8> {
        le32(self.ptype) + self.parm.spec_bytes() + zeros(160)
    }

    pub open spec fn parsed(self, b: Seq<u8>) -> bool {
        self.ptype == u32_at(b, 0) && self.parm.parsed(b, 4)
    }

    pub fn new(interval: (u32, u32)) -> (r: StreamParm)
        ensures
            r.ptype == BUF_TYPE_VIDEO_CAPTURE,
            r.parm.timeperframe == (Fract { numerator: interval.0, denominator: interval.1 }),
            r.parm.capability == 0,
            r.parm.capturemode == 0,
            r.parm.extendedmode == 0,
            r.parm.readbuffers == 0,
    {
        StreamParm {
            ptype: BUF_TYPE_VIDEO_CAPTURE,
            parm: CaptureParm {
                capability: 0,
                capturemode: 0,
                timeperframe: Fract { numerator: interval.0, denominator: interval.1 },
                extendedmode: 0,
                readbuffers: 0,
            },
        }
    }

    pub fn to_bytes(&self) -> (r: Vec<u8>)
        ensures
            r@ == self.spec_bytes(),
            r@.len() == STREAM_PARM_SIZE,
    {
        let mut out: Vec<u8> = Vec::new();
        push_u32(&mut out, self.ptype);
        push_u32(&mut out, self.parm.capability);
        push_u32(&mut out, self.parm.capturemode);
        push_u32(&mut out, self.parm.timeperframe.numerator);
        push_u32(&mut out, self.parm.timeperframe.denominator);
        push_u32(&mut out, self.parm.extendedmode);
        push_u32(&mut out, self.parm.readbuffers);
        push_zeros(&mut out, 16);
        push_zeros(&mut out, 160);
        assert(out@ =~= self.spec_bytes());
        out
    }

    pub fn from_bytes(b: &[u8]) -> (r: StreamParm)
        requires
            b@.len() == STREAM_PARM_SIZE,
        ensures
            r.parsed(b@),
    {
        StreamParm {
            ptype: read_u32(b, 0),
            parm: CaptureParm {
                capability: read_u32(b, 4),
                capturemode: read_u32(b, 8),
                timeperframe: Fract { numerator: read_u32(b, 12), denominator: read_u32(b, 16) },
                extendedmode: read_u32(b, 20),
                readbuffers: read_u32(b, 24),
            },
        }
    }
}

/// The six words of a frame-size or frame-interval answer, read by its type tag.
pub open spec fn words_at(b: Seq<u8>, off: int) -> Seq<u32> {
    seq![
        u32_at(b, off),
        u32_at(b, off + 4),
        u32_at(b, off + 8),
        u32_at(b, off + 12),
        u32_at(b, off + 16),
        u32_at(b, off + 20),
    ]
}

pub open spec fn words_bytes(w: Seq<u32>) -> Seq<u8> {
    le32(w[0]) + le32(w[1]) + le32(w[2]) + le32(w[3]) + le32(w[4]) + le32(w[5])
}

fn read_words(b: &[u8], off: usize) -> (r: [u32; 6])
    requires
        off + 24 <= b.len(),
    ensures
        r@ == words_at(b@, off as int),
{
    let r = [
        read_u32(b, off),
        read_u32(b, off + 4),
        read_u32(b, off + 8),
        read_u32(b, off + 12),
        read_u32(b, off + 16),
        read_u32(b, off + 20),
    ];
    assert(r@ =~= words_at(b@, off as int));
    r
}

fn write_words(out: &mut Vec<u8>, w: &[u32; 6])
    ensures
        final(out)@ == old(out)@ + words_bytes(w@),
{
    let ghost start = out@;
    push_u32(out, w[0]);
    push_u32(out, w[1]);
    push_u32(out, w[2]);
    push_u32(out, w[3]);
    push_u32(out, w[4]);
    push_u32(out, w[5]);
    assert(out@ =~= start + words_bytes(w@));
}

/// Query of the frame sizes of a pixel format, answered either by one discrete size per
/// index or by a single stepwise range.
pub struct Frmsizeenum {
    pub index: u32,
    pub pixelformat: u32,
    pub ftype: u32,
    /// The answer's payload, to be read through `discrete` or `stepwise` by `ftype`.
    pub data: [u32; 6],
}

pub struct FrmsizeDiscrete {
    pub width: u32,
    pub height: u32,
}

pub struct FrmsizeStepwise {
    pub min_width: u32,
    pub max_width: u32,
    pub step_width: u32,
    pub min_height: u32,
    pub max_height: u32,
    pub step_height: u32,
}

impl Frmsizeenum {
    pub open spec fn words(self) -> Seq<u32> {
        self.data@
    }

    pub open spec fn spec_bytes(self) -> Seq<u8> {
        le32(self.index) + le32(self.pixelformat) + le32(self.ftype) + words_bytes(self.words())
            + zeros(8)
    }

    pub open spec fn parsed(self, b: Seq<u8>) -> bool {
        &&& self.index == u32_at(b, 0)
        &&& self.pixelformat == u32_at(b, 4)
        &&& self.ftype == u32_at(b, 8)
        &&& self.words() == words_at(b, 12)
    }

    pub fn new(fourcc: u32) -> (r: Frmsizeenum)
        ensures
            r.index == 0,
            r.pixelformat == fourcc,
            r.ftype == 0,
            r.words() == seq![0u32, 0, 0, 0, 0, 0],
    {
        let r = Frmsizeenum { index: 0, pixelformat: fourcc, ftype: 0, data: [0, 0, 0, 0, 0, 0] };
        assert(r.words() =~= seq![0u32, 0, 0, 0, 0, 0]);
        r
    }

    /// The answer read as one discrete size.
    pub fn discrete(&self) -> (r: FrmsizeDiscrete)
        ensures
            r.width == self.words()[0],
            r.height == self.words()[1],
    {
        FrmsizeDiscrete { width: self.data[0], height: self.data[1] }
    }

    /// The answer read as a stepwise range.
    pub fn stepwise(&self) -> (r: FrmsizeStepwise)
        ensures
            r.min_width == self.words()[0],
            r.max_width == self.words()[1],
            r.step_width == self.words()[2],
            r.min_height == self.words()[3],
            r.max_height == self.words()[4],
            r.step_height == self.words()[5],
    {
        FrmsizeStepwise {
            min_width: self.data[0],
            max_width: self.data[1],
            step_width: self.data[2],
            min_height: self.data[3],
            max_height: self.data[4],
            step_height: self.data[5],
        }
    }

    pub fn to_bytes(&self) -> (r: Vec<u8>)
        ensures
            r@ == self.spec_bytes(),
            r@.len() == FRMSIZEENUM_SIZE,
    {
        let mut out: Vec<u8> = Vec::new();
        push_u32(&mut out, self.index);
        push_u32(&mut out, self.pixelformat);
        push_u32(&mut out, self.ftype);
        write_words(&mut out, &self.data);
        push_zeros(&mut out, 8);
        assert(out@ =~= self.spec_bytes());
        out
    }

    pub fn from_bytes(b: &[u8]) -> (r: Frmsizeenum)
        requires
            b@.len() == FRMSIZEENUM_SIZE,
        ensures
            r.parsed(b@),
    {
        Frmsizeenum {
            index: read_u32(b, 0),
            pixelformat: read_u32(b, 4),
            ftype: read_u32(b, 8),
            data: read_words(b, 12),
        }
    }
}

/// Query of the frame intervals of a pixel format at one frame size.
pub struct Frmivalenum {
    pub index: u32,
    pub pixelformat: u32,
    pub width: u32,
    pub height: u32,
    pub ftype: u32,
    /// The answer's payload, to be read through `discrete` or `stepwise` by `ftype`.
    pub data: [u32; 6],
}

pub struct FrmivalStepwise {
    pub min: Fract,
    pub max: Fract,
    pub step: Fract,
}

impl Frmivalenum {
    pub open spec fn words(self) -> Seq<u32> {
        self.data@
    }

    pub open spec fn spec_bytes(self) -> Seq<u8> {
        le32(self.index) + le32(self.pixelformat) + le32(self.width) + le32(self.height) + le32(
            self.ftype,
        ) + words_bytes(self.words()) + zeros(8)
    }

    pub open spec fn parsed(self, b: Seq<u8>) -> bool {
        &&& self.index == u32_at(b, 0)
        &&& self.pixelformat == u32_at(b, 4)
        &&& self.width == u32_at(b, 8)
        &&& self.height == u32_at(b, 12)
        &&& self.ftype == u32_at(b, 16)
        &&& self.words() == words_at(b, 20)
    }

    pub fn new(fourcc: u32, resolution: (u32, u32)) -> (r: Frmivalenum)
        ensures
            r.index == 0,
            r.pixelformat == fourcc,
            r.width == resolution.0,
            r.height == resolution.1,
            r.ftype == 0,
            r.words() == seq![0u32, 0, 0, 0, 0, 0],
    {
        let r = Frmivalenum {
            index: 0,
            pixelformat: fourcc,
            width: resolution.0,
            height: resolution.1,
            ftype: 0,
            data: [0, 0, 0, 0, 0, 0],
        };
        assert(r.words() =~= seq![0u32, 0, 0, 0, 0, 0]);
        r
    }

    /// The answer read as one discrete interval.
    pub fn discrete(&self) -> (r: Fract)
        ensures
            r.numerator == self.words()[0],
            r.denominator == self.words()[1],
    {
        Fract { numerator: self.data[0], denominator: self.data[1] }
    }

    /// The answer read as a stepwise range.
    pub fn stepwise(&self) -> (r: FrmivalStepwise)
        ensures
            r.min == (Fract { numerator: self.words()[0], denominator: self.words()[1] }),
            r.max == (Fract { numerator: self.words()[2], denominator: self.words()[3] }),
            r.step == (Fract { numerator: self.words()[4], denominator: self.words()[5] }),
    {
        FrmivalStepwise {
            min: Fract { numerator: self.data[0], denominator: self.data[1] },
            max: Fract { numerator: self.data[2], denominator: self.data[3] },
            step: Fract { numerator: self.data[4], denominator: self.data[5] },
        }
    }

    pub fn to_bytes(&self) -> (r: Vec<u8>)
        ensures
            r@ == self.spec_bytes(),
            r@.len() == FRMIVALENUM_SIZE,
    {
        let mut out: Vec<u8> = Vec::new();
        push_u32(&mut out, self.index);
        push_u32(&mut out, self.pixelformat);
        push_u32(&mut out, self.width);
        push_u32(&mut out, self.height);
        push_u32(&mut out, self.ftype);
        write_words(&mut out, &self.data);
        push_zeros(&mut out, 8);
        assert(out@ =~= self.spec_bytes());
        out
    }

    pub fn from_bytes(b: &[u8]) -> (r: Frmivalenum)
        requires
            b@.len() == FRMIVALENUM_SIZE,
        ensures
            r.parsed(b@),
    {
        Frmivalenum {
            index: read_u32(b, 0),
            pixelformat: read_u32(b, 4),
            width: read_u32(b, 8),
            height: read_u32(b, 12),
            ftype: read_u32(b, 16),
            data: read_words(b, 20),
        }
    }
}

/// Query of a control's type, bounds and flags.
pub struct QueryCtrl {
    pub id: u32,
    pub qtype: u32,
    pub name: Vec<u8>,
    pub minimum: i32,
    pub maximum: i32,
    pub step: i32,
    pub default_value: i32,
    pub flags: u32,
}

impl QueryCtrl {
    pub open spec fn spec_bytes(self) -> Seq<u8> {
        le32(self.id) + le32(self.qtype) + fixed(self.name@, 32) + le32(self.minimum as u32) + le32(
            self.maximum as u32,
        ) + le32(self.step as u32) + le32(self.default_value as u32) + le32(self.flags) + zeros(8)
    }

    pub open spec fn parsed(self, b: Seq<u8>) -> bool {
        &&& self.id == u32_at(b, 0)
        &&& self.qtype == u32_at(b, 4)
        &&& self.name@ == b.subrange(8, 40)
        &&& self.minimum == u32_at(b, 40) as i32
        &&& self.maximum == u32_at(b, 44) as i32
        &&& self.step == u32_at(b, 48) as i32
        &&& self.default_value == u32_at(b, 52) as i32
        &&& self.flags == u32_at(b, 56)
    }

    pub fn new(id: u32) -> (r: QueryCtrl)
        ensures
            r.id == id,
            r.qtype == 0,
            r.name@ == zeros(32),
            r.minimum == 0 && r.maximum == 0 && r.step == 0 && r.default_value == 0,
            r.flags == 0,
    {
        let mut name: Vec<u8> = Vec::new();
        push_zeros(&mut name, NAME_SIZE);
        QueryCtrl { id, qtype: 0, name, minimum: 0, maximum: 0, step: 0, default_value: 0, flags: 0 }
    }

    pub fn to_bytes(&self) -> (r: Vec<u8>)
        ensures
            r@ == self.spec_bytes(),
            r@.len() == QUERY_CTRL_SIZE,
    {
        let mut out: Vec<u8> = Vec::new();
        push_u32(&mut out, self.id);
        push_u32(&mut out, self.qtype);
        push_fixed(&mut out, &self.name, NAME_SIZE);
        push_u32(&mut out, self.minimum as u32);
        push_u32(&mut out, self.maximum as u32);
        push_u32(&mut out, self.step as u32);
        push_u32(&mut out, self.default_value as u32);
        push_u32(&mut out, self.flags);
        push_zeros(&mut out, 8);
        assert(out@ =~= self.spec_bytes());
        out
    }

    pub fn from_bytes(b: &[u8]) -> (r: QueryCtrl)
        requires
            b@.len() == QUERY_CTRL_SIZE,
        ensures
            r.parsed(b@),
    {
        QueryCtrl {
            id: read_u32(b, 0),
            qtype: read_u32(b, 4),
            name: read_bytes(b, 8, NAME_SIZE),
            minimum: read_u32(b, 40) as i32,
            maximum: read_u32(b, 44) as i32,
            step: read_u32(b, 48) as i32,
            default_value: read_u32(b, 52) as i32,
            flags: read_u32(b, 56),
        }
    }
}

/// Extended query of a control, with 64-bit bounds.
pub struct QueryExtCtrl {
    pub id: u32,
    pub qtype: u32,
    pub name: Vec<u8>,
    pub minimum: i64,
    pub maximum: i64,
    pub step: u64,
    pub default_value: i64,
    pub flags: u32,
    pub elem_size: u32,
    pub elems: u32,
    pub nr_of_dims: u32,
    pub dims: [u32; 4],
}

impl QueryExtCtrl {
    pub open spec fn spec_bytes(self) -> Seq<u8> {
        le32(self.id) + le32(self.qtype) + fixed(self.name@, 32) + le64(self.minimum as u64) + le64(
            self.maximum as u64,
        ) + le64(self.step) + le64(self.default_value as u64) + le32(self.flags) + le32(
            self.elem_size,
        ) + le32(self.elems) + le32(self.nr_of_dims) + le32(self.dims@[0]) + le32(self.dims@[1])
            + le32(self.dims@[2]) + le32(self.dims@[3]) + zeros(128)
    }

    pub open spec fn parsed(self, b: Seq<u8>) -> bool {
        &&& self.id == u32_at(b, 0)
        &&& self.qtype == u32_at(b, 4)
        &&& self.name@ == b.subrange(8, 40)
        &&& self.minimum == u64_at(b, 40) as i64
        &&& self.maximum == u64_at(b, 48) as i64
        &&& self.step == u64_at(b, 56)
        &&& self.default_value == u64_at(b, 64) as i64
        &&& self.flags == u32_at(b, 72)
        &&& self.elem_size == u32_at(b, 76)
        &&& self.elems == u32_at(b, 80)
        &&& self.nr_of_dims == u32_at(b, 84)
        &&& self.dims@ == seq![u32_at(b, 88), u32_at(b, 92), u32_at(b, 96), u32_at(b, 100)]
    }

    /// The query for one 64-bit element of control `id`.
    pub fn new(id: u32) -> (r: QueryExtCtrl)
        ensures
            r.id == id,
            r.qtype == 0,
            r.name@ == zeros(32),
            r.minimum == 0 && r.maximum == 0 && r.step == 0 && r.default_value == 0,
            r.flags == 0,
            r.elem_size == 8,
            r.elems == 1,
            r.nr_of_dims == 0,
            r.dims@ == seq![0u32, 0, 0, 0],
    {
        let mut name: Vec<u8> = Vec::new();
        push_zeros(&mut name, NAME_SIZE);
        let r = QueryExtCtrl {
            id,
            qtype: 0,
            name,
            minimum: 0,
            maximum: 0,
            step: 0,
            default_value: 0,
            flags: 0,
            elem_size: 8,
            elems: 1,
            nr_of_dims: 0,
            dims: [0, 0, 0, 0],
        };
        assert(r.dims@ =~= seq![0u32, 0, 0, 0]);
        r
    }

    pub fn to_bytes(&self) -> (r: Vec<u8>)
        ensures
            r@ == self.spec_bytes(),
            r@.len() == QUERY_EXT_CTRL_SIZE,
    {
        let mut out: Vec<u8> = Vec::new();
        push_u32(&mut out, self.id);
        push_u32(&mut out, self.qtype);
        push_fixed(&mut out, &self.name, NAME_SIZE);
        push_u64(&mut out, self.minimum as u64);
        push_u64(&mut out, self.maximum as u64);
        push_u64(&mut out, self.step);
        push_u64(&mut out, self.default_value as u64);
        push_u32(&mut out, self.flags);
        push_u32(&mut out, self.elem_size);
        push_u32(&mut out, self.elems);
        push_u32(&mut out, self.nr_of_dims);
        push_u32(&mut out, self.dims[0]);
        push_u32(&mut out, self.dims[1]);
        push_u32(&mut out, self.dims[2]);
        push_u32(&mut out, self.dims[3]);
        push_zeros(&mut out, 128);
        assert(out@ =~= self.spec_bytes());
        out
    }

    pub fn from_bytes(b: &[u8]) -> (r: QueryExtCtrl)
        requires
            b@.len() == QUERY_EXT_CTRL_SIZE,
        ensures
            r.parsed(b@),
    {
        let r = QueryExtCtrl {
            id: read_u32(b, 0),
            qtype: read_u32(b, 4),
            name: read_bytes(b, 8, NAME_SIZE),
            minimum: read_u64(b, 40) as i64,
            maximum: read_u64(b, 48) as i64,
            step: read_u64(b, 56),
            default_value: read_u64(b, 64) as i64,
            flags: read_u32(b, 72),
            elem_size: read_u32(b, 76),
            elems: read_u32(b, 80),
            nr_of_dims: read_u32(b, 84),
            dims: [read_u32(b, 88), read_u32(b, 92), read_u32(b, 96), read_u32(b, 100)],
        };
        assert(r.dims@ =~= seq![u32_at(b@, 88), u32_at(b@, 92), u32_at(b@, 96), u32_at(b@, 100)]);
        r
    }
}

/// Query of one item of a menu control.
pub struct QueryMenu {
    pub id: u32,
    pub index: u32,
    pub data: QueryMenuData,
}

/// The 32 bytes of a menu item: its name, or for an integer menu its value.
pub struct QueryMenuData {
    pub raw: Vec<u8>,
}

impl QueryMenuData {
    /// The item's name, as stored.
    pub fn name(&self) -> (r: &[u8])
        ensures
            r@ == self.raw@,
    {
        self.raw.as_slice()
    }

    /// The item's value: the first eight bytes, little-endian.
    pub fn value(&self) -> (r: i64)
        requires
            self.raw@.len() >= 8,
        ensures
            r == u64_at(self.raw@, 0) as i64,
    {
        read_u64(self.raw.as_slice(), 0) as i64
    }
}

impl QueryMenu {
    pub open spec fn spec_bytes(self) -> Seq<u8> {
        le32(self.id) + le32(self.index) + fixed(self.data.raw@, 32) + zeros(4)
    }

    pub open spec fn parsed(self, b: Seq<u8>) -> bool {
        &&& self.id == u32_at(b, 0)
        &&& self.index == u32_at(b, 4)
        &&& self.data.raw@ == b.subrange(8, 40)
    }

    pub fn new(id: u32) -> (r: QueryMenu)
        ensures
            r.id == id,
            r.index == 0,
            r.data.raw@ == zeros(32),
    {
        let mut raw: Vec<u8> = Vec::new();
        push_zeros(&mut raw, NAME_SIZE);
        QueryMenu { id, index: 0, data: QueryMenuData { raw } }
    }

    pub fn to_bytes(&self) -> (r: Vec<u8>)
        ensures
            r@ == self.spec_bytes(),
            r@.len() == QUERY_MENU_SIZE,
    {
        let mut out: Vec<u8> = Vec::new();
        push_u32(&mut out, self.id);
        push_u32(&mut out, self.index);
        push_fixed(&mut out, &self.data.raw, NAME_SIZE);
        push_zeros(&mut out, 4);
        assert(out@ =~= self.spec_bytes());
        out
    }

    pub fn from_bytes(b: &[u8]) -> (r: QueryMenu)
        requires
            b@.len() == QUERY_MENU_SIZE,
        ensures
            r.parsed(b@),
    {
        QueryMenu {
            id: read_u32(b, 0),
            index: read_u32(b, 4),
            data: QueryMenuData { raw: read_bytes(b, 8, NAME_SIZE) },
        }
    }
}

/// The current value of a 32-bit control.
pub struct Control {
    pub id: u32,
    pub value: i32,
}

impl Control {
    pub open spec fn spec_bytes(self) -> Seq<u8> {
        le32(self.id) + le32(self.value as u32)
    }

    pub open spec fn parsed(self, b: Seq<u8>) -> bool {
        self.id == u32_at(b, 0) && self.value == u32_at(b, 4) as i32
    }

    pub fn new(id: u32) -> (r: Control)
        ensures
            r.id == id,
            r.value == 0,
    {
        Control { id, value: 0 }
    }

    pub fn to_bytes(&self) -> (r: Vec<u8>)
        ensures
            r@ == self.spec_bytes(),
            r@.len() == CONTROL_SIZE,
    {
        let mut out: Vec<u8> = Vec::new();
        push_u32(&mut out, self.id);
        push_u32(&mut out, self.value as u32);
        assert(out@ =~= self.spec_bytes());
        out
    }

    pub fn from_bytes(b: &[u8]) -> (r: Control)
        requires
            b@.len() == CONTROL_SIZE,
        ensures
            r.parsed(b@),
    {
        Control { id: read_u32(b, 0), value: read_u32(b, 4) as i32 }
    }
}

/// One control of an extended get or set: its value, or for a string control the address
/// of the caller's buffer of `size` bytes.
pub struct ExtControl {
    pub id: u32,
    pub size: u32,
    pub value: i64,
}

impl ExtControl {
    pub open spec fn spec_bytes(self) -> Seq<u8> {
        le32(self.id) + le32(self.size) + zeros(4) + le64(self.value as u64)
    }

    pub open spec fn parsed(self, b: Seq<u8>) -> bool {
        &&& self.id == u32_at(b, 0)
        &&& self.size == u32_at(b, 4)
        &&& self.value == u64_at(b, 12) as i64
    }

    pub fn new(id: u32, size: u32) -> (r: ExtControl)
        ensures
            r.id == id,
            r.size == size,
            r.value == 0,
    {
        ExtControl { id, size, value: 0 }
    }

    pub fn to_bytes(&self) -> (r: Vec<u8>)
        ensures
            r@ == self.spec_bytes(),
            r@.len() == EXT_CONTROL_SIZE,
    {
        let mut out: Vec<u8> = Vec::new();
        push_u32(&mut out, self.id);
        push_u32(&mut out, self.size);
        push_zeros(&mut out, 4);
        push_u64(&mut out, self.value as u64);
        assert(out@ =~= self.spec_bytes());
        out
    }

    pub fn from_bytes(b: &[u8]) -> (r: ExtControl)
        requires
            b@.len() == EXT_CONTROL_SIZE,
        ensures
            r.parsed(b@),
    {
        ExtControl { id: read_u32(b, 0), size: read_u32(b, 4), value: read_u64(b, 12) as i64 }
    }
}

/// Header of an extended get or set of one control; `controls` is the address of that
/// control's record.
pub struct ExtControls {
    pub ctrl_class: u32,
    pub count: u32,
    pub error_idx: u32,
    pub controls: u64,
}

impl ExtControls {
    pub open spec fn spec_bytes(self) -> Seq<u8> {
        let head = le32(self.ctrl_class) + le32(self.count) + le32(self.error_idx);
        if wide() {
            head + zeros(12) + le64(self.controls)
        } else {
            head + zeros(8) + le32(self.controls as u32)
        }
    }

    pub fn new(class: u32, controls: u64) -> (r: ExtControls)
        ensures
            r.ctrl_class == class,
            r.count == 1,
            r.error_idx == 0,
            r.controls == controls,
    {
        ExtControls { ctrl_class: class, count: 1, error_idx: 0, controls }
    }

    pub fn to_bytes(&self) -> (r: Vec<u8>)
        ensures
            r@ == self.spec_bytes(),
            r@.len() == ext_controls_size(),
    {
        let mut out: Vec<u8> = Vec::new();
        push_u32(&mut out, self.ctrl_class);
        push_u32(&mut out, self.count);
        push_u32(&mut out, self.error_idx);
        if is_wide() {
            push_zeros(&mut out, 12);
            push_u64(&mut out, self.controls);
        } else {
            push_zeros(&mut out, 8);
            push_u32(&mut out, self.controls as u32);
        }
        assert(out@ =~= self.spec_bytes());
        out
    }
}

/// A format read back from its own bytes has the same fields.
pub proof fn lemma_format_layout(f: Format)
    ensures
        f.parsed(f.spec_bytes()),
{
    let b = f.spec_bytes();
    let p = f.fmt;
    let o = pix_offset();
    assert(b.subrange(0, 4) =~= le32(f.ftype));
    lemma_read_written_u32(b, 0, f.ftype);
    assert(b.subrange(o + 0, o + 4) =~= le32(p.width));
    lemma_read_written_u32(b, o + 0, p.width);
    assert(b.subrange(o + 4, o + 8) =~= le32(p.height));
    lemma_read_written_u32(b, o + 4, p.height);
    assert(b.subrange(o + 8, o + 12) =~= le32(p.pixelformat));
    lemma_read_written_u32(b, o + 8, p.pixelformat);
    assert(b.subrange(o + 12, o + 16) =~= le32(p.field));
    lemma_read_written_u32(b, o + 12, p.field);
    assert(b.subrange(o + 16, o + 20) =~= le32(p.bytesperline));
    lemma_read_written_u32(b, o + 16, p.bytesperline);
    assert(b.subrange(o + 20, o + 24) =~= le32(p.sizeimage));
    lemma_read_written_u32(b, o + 20, p.sizeimage);
    assert(b.subrange(o + 24, o + 28) =~= le32(p.colorspace));
    lemma_read_written_u32(b, o + 24, p.colorspace);
    assert(b.subrange(o + 28, o + 32) =~= le32(p.private));
    lemma_read_written_u32(b, o + 28, p.private);
    assert(b.subrange(o + 32, o + 36) =~= le32(p.flags));
    lemma_read_written_u32(b, o + 32, p.flags);
    assert(b.subrange(o + 36, o + 40) =~= le32(p.ycbcr_enc));
    lemma_read_written_u32(b, o + 36, p.ycbcr_enc);
    assert(b.subrange(o + 40, o + 44) =~= le32(p.quantization));
    lemma_read_written_u32(b, o + 40, p.quantization);
}

/// A buffer read back from its own bytes has the same fields; on the 32-bit ABI, where the
/// time and the offset take four bytes each, when they fit there.
#[verifier::rlimit(50)]
pub proof fn lemma_buffer_layout(buf: Buffer)
    requires
        !wide() ==> i32::MIN <= buf.timestamp.tv_sec <= i32::MAX && i32::MIN
            <= buf.timestamp.tv_usec <= i32::MAX && buf.m <= u32::MAX,
    ensures
        buf.parsed(buf.spec_bytes()),
{
    let b = buf.spec_bytes();
    if wide() {
        assert(b.subrange(0, 4) =~= le32(buf.index));
        lemma_read_written_u32(b, 0, buf.index);
        assert(b.subrange(4, 8) =~= le32(buf.btype));
        lemma_read_written_u32(b, 4, buf.btype);
        assert(b.subrange(8, 12) =~= le32(buf.bytesused));
        lemma_read_written_u32(b, 8, buf.bytesused);
        assert(b.subrange(12, 16) =~= le32(buf.flags));
        lemma_read_written_u32(b, 12, buf.flags);
        assert(b.subrange(16, 20) =~= le32(buf.field));
        lemma_read_written_u32(b, 16, buf.field);
        assert(b.subrange(40, 44) =~= le32(buf.timecode.ttype));
        lemma_read_written_u32(b, 40, buf.timecode.ttype);
        assert(b.subrange(44, 48) =~= le32(buf.timecode.flags));
        lemma_read_written_u32(b, 44, buf.timecode.flags);
        assert(b.subrange(52, 56) =~= le32(buf.timecode.userbits));
        lemma_read_written_u32(b, 52, buf.timecode.userbits);
        assert(b.subrange(56, 60) =~= le32(buf.sequence));
        lemma_read_written_u32(b, 56, buf.sequence);
        assert(b.subrange(60, 64) =~= le32(buf.memory));
        lemma_read_written_u32(b, 60, buf.memory);
        assert(b.subrange(72, 76) =~= le32(buf.length));
        lemma_read_written_u32(b, 72, buf.length);
        assert(b.subrange(76, 80) =~= le32(buf.input));
        lemma_read_written_u32(b, 76, buf.input);
        assert(b.subrange(24, 32) =~= le64(buf.timestamp.tv_sec as u64));
        lemma_read_written_u64(b, 24, buf.timestamp.tv_sec as u64);
        assert(b.subrange(32, 40) =~= le64(buf.timestamp.tv_usec as u64));
        lemma_read_written_u64(b, 32, buf.timestamp.tv_usec as u64);
        assert(b.subrange(64, 72) =~= le64(buf.m));
        lemma_read_written_u64(b, 64, buf.m);
        assert(b[48] == buf.timecode.frames && b[49] == buf.timecode.seconds);
        assert(b[50] == buf.timecode.minutes && b[51] == buf.timecode.hours);
        let s0: i64 = buf.timestamp.tv_sec;
        let s1: i64 = buf.timestamp.tv_usec;
        assert((s0 as u64) as i64 == s0) by (bit_vector);
        assert((s1 as u64) as i64 == s1) by (bit_vector);
    } else {
        assert(b.subrange(0, 4) =~= le32(buf.index));
        lemma_read_written_u32(b, 0, buf.index);
        assert(b.subrange(4, 8) =~= le32(buf.btype));
        lemma_read_written_u32(b, 4, buf.btype);
        assert(b.subrange(8, 12) =~= le32(buf.bytesused));
        lemma_read_written_u32(b, 8, buf.bytesused);
        assert(b.subrange(12, 16) =~= le32(buf.flags));
        lemma_read_written_u32(b, 12, buf.flags);
        assert(b.subrange(16, 20) =~= le32(buf.field));
        lemma_read_written_u32(b, 16, buf.field);
        assert(b.subrange(20, 24) =~= le32(buf.timestamp.tv_sec as u32));
        lemma_read_written_u32(b, 20, buf.timestamp.tv_sec as u32);
        assert(b.subrange(24, 28) =~= le32(buf.timestamp.tv_usec as u32));
        lemma_read_written_u32(b, 24, buf.timestamp.tv_usec as u32);
        assert(b.subrange(28, 32) =~= le32(buf.timecode.ttype));
        lemma_read_written_u32(b, 28, buf.timecode.ttype);
        assert(b.subrange(32, 36) =~= le32(buf.timecode.flags));
        lemma_read_written_u32(b, 32, buf.timecode.flags);
        assert(b.subrange(40, 44) =~= le32(buf.timecode.userbits));
        lemma_read_written_u32(b, 40, buf.timecode.userbits);
        assert(b.subrange(44, 48) =~= le32(buf.sequence));
        lemma_read_written_u32(b, 44, buf.sequence);
        assert(b.subrange(48, 52) =~= le32(buf.memory));
        lemma_read_written_u32(b, 48, buf.memory);
        assert(b.subrange(52, 56) =~= le32(buf.m as u32));
        lemma_read_written_u32(b, 52, buf.m as u32);
        assert(b.subrange(56, 60) =~= le32(buf.length));
        lemma_read_written_u32(b, 56, buf.length);
        assert(b.subrange(60, 64) =~= le32(buf.input));
        lemma_read_written_u32(b, 60, buf.input);
        assert(b[36] == buf.timecode.frames && b[37] == buf.timecode.seconds);
        assert(b[38] == buf.timecode.minutes && b[39] == buf.timecode.hours);
        let s0: i64 = buf.timestamp.tv_sec;
        let s1: i64 = buf.timestamp.tv_usec;
        let m: u64 = buf.m;
        assert(i32::MIN <= s0 <= i32::MAX ==> (s0 as u32) as i32 as i64 == s0) by (bit_vector);
        assert(i32::MIN <= s1 <= i32::MAX ==> (s1 as u32) as i32 as i64 == s1) by (bit_vector);
        assert(m <= u32::MAX ==> (m as u32) as u64 == m) by (bit_vector);
    }
}

/// A `FmtDesc` read back from its own bytes has the same fields (its byte string field holding 32 bytes).
pub proof fn lemma_fmt_desc_layout(d: FmtDesc)
    requires
        d.description@.len() == 32,
    ensures
        d.parsed(d.spec_bytes()),
{
    let b = d.spec_bytes();
    assert(b.subrange(0, 4) =~= le32(d.index));
    lemma_read_written_u32(b, 0, d.index);
    assert(b.subrange(4, 8) =~= le32(d.ftype));
    lemma_read_written_u32(b, 4, d.ftype);
    assert(b.subrange(8, 12) =~= le32(d.flags));
    lemma_read_written_u32(b, 8, d.flags);
    assert(b.subrange(44, 48) =~= le32(d.pixelformat));
    lemma_read_written_u32(b, 44, d.pixelformat);
    assert(b.subrange(12, 44) =~= d.description@);
}

/// A `StreamParm` read back from its own bytes has the same fields.
pub proof fn lemma_stream_parm_layout(p: StreamParm)
    ensures
        p.parsed(p.spec_bytes()),
{
    let b = p.spec_bytes();
    assert(b.subrange(0, 4) =~= le32(p.ptype));
    lemma_read_written_u32(b, 0, p.ptype);
    assert(b.subrange(4, 8) =~= le32(p.parm.capability));
    lemma_read_written_u32(b, 4, p.parm.capability);
    assert(b.subrange(8, 12) =~= le32(p.parm.capturemode));
    lemma_read_written_u32(b, 8, p.parm.capturemode);
    assert(b.subrange(12, 16) =~= le32(p.parm.timeperframe.numerator));
    lemma_read_written_u32(b, 12, p.parm.timeperframe.numerator);
    assert(b.subrange(16, 20) =~= le32(p.parm.timeperframe.denominator));
    lemma_read_written_u32(b, 16, p.parm.timeperframe.denominator);
    assert(b.subrange(20, 24) =~= le32(p.parm.extendedmode));
    lemma_read_written_u32(b, 20, p.parm.extendedmode);
    assert(b.subrange(24, 28) =~= le32(p.parm.readbuffers));
    lemma_read_written_u32(b, 24, p.parm.readbuffers);
}

/// A `Frmsizeenum` read back from its own bytes has the same fields.
pub proof fn lemma_frmsizeenum_layout(s: Frmsizeenum)
    ensures
        s.parsed(s.spec_bytes()),
{
    let b = s.spec_bytes();
    assert(b.subrange(0, 4) =~= le32(s.index));
    lemma_read_written_u32(b, 0, s.index);
    assert(b.subrange(4, 8) =~= le32(s.pixelformat));
    lemma_read_written_u32(b, 4, s.pixelformat);
    assert(b.subrange(8, 12) =~= le32(s.ftype));
    lemma_read_written_u32(b, 8, s.ftype);
    assert(b.subrange(12, 16) =~= le32(s.data@[0]));
    lemma_read_written_u32(b, 12, s.data@[0]);
    assert(b.subrange(16, 20) =~= le32(s.data@[1]));
    lemma_read_written_u32(b, 16, s.data@[1]);
    assert(b.subrange(20, 24) =~= le32(s.data@[2]));
    lemma_read_written_u32(b, 20, s.data@[2]);
    assert(b.subrange(24, 28) =~= le32(s.data@[3]));
    lemma_read_written_u32(b, 24, s.data@[3]);
    assert(b.subrange(28, 32) =~= le32(s.data@[4]));
    lemma_read_written_u32(b, 28, s.data@[4]);
    assert(b.subrange(32, 36) =~= le32(s.data@[5]));
    lemma_read_written_u32(b, 32, s.data@[5]);
    assert(words_at(b, 12) =~= s.words());
}

/// A `Frmivalenum` read back from its own bytes has the same fields.
pub proof fn lemma_frmivalenum_layout(s: Frmivalenum)
    ensures
        s.parsed(s.spec_bytes()),
{
    let b = s.spec_bytes();
    assert(b.subrange(0, 4) =~= le32(s.index));
    lemma_read_written_u32(b, 0, s.index);
    assert(b.subrange(4, 8) =~= le32(s.pixelformat));
    lemma_read_written_u32(b, 4, s.pixelformat);
    assert(b.subrange(8, 12) =~= le32(s.width));
    lemma_read_written_u32(b, 8, s.width);
    assert(b.subrange(12, 16) =~= le32(s.height));
    lemma_read_written_u32(b, 12, s.height);
    assert(b.subrange(16, 20) =~= le32(s.ftype));
    lemma_read_written_u32(b, 16, s.ftype);
    assert(b.subrange(20, 24) =~= le32(s.data@[0]));
    lemma_read_written_u32(b, 20, s.data@[0]);
    assert(b.subrange(24, 28) =~= le32(s.data@[1]));
    lemma_read_written_u32(b, 24, s.data@[1]);
    assert(b.subrange(28, 32) =~= le32(s.data@[2]));
    lemma_read_written_u32(b, 28, s.data@[2]);
    assert(b.subrange(32, 36) =~= le32(s.data@[3]));
    lemma_read_written_u32(b, 32, s.data@[3]);
    assert(b.subrange(36, 40) =~= le32(s.data@[4]));
    lemma_read_written_u32(b, 36, s.data@[4]);
    assert(b.subrange(40, 44) =~= le32(s.data@[5]));
    lemma_read_written_u32(b, 40, s.data@[5]);
    assert(words_at(b, 20) =~= s.words());
}

/// A `QueryCtrl` read back from its own bytes has the same fields (its byte string field holding 32 bytes).
pub proof fn lemma_query_ctrl_layout(q: QueryCtrl)
    requires
        q.name@.len() == 32,
    ensures
        q.parsed(q.spec_bytes()),
{
    let b = q.spec_bytes();
    assert(b.subrange(0, 4) =~= le32(q.id));
    lemma_read_written_u32(b, 0, q.id);
    assert(b.subrange(4, 8) =~= le32(q.qtype));
    lemma_read_written_u32(b, 4, q.qtype);
    assert(b.subrange(40, 44) =~= le32(q.minimum as u32));
    lemma_read_written_u32(b, 40, q.minimum as u32);
    assert(b.subrange(44, 48) =~= le32(q.maximum as u32));
    lemma_read_written_u32(b, 44, q.maximum as u32);
    assert(b.subrange(48, 52) =~= le32(q.step as u32));
    lemma_read_written_u32(b, 48, q.step as u32);
    assert(b.subrange(52, 56) =~= le32(q.default_value as u32));
    lemma_read_written_u32(b, 52, q.default_value as u32);
    assert(b.subrange(56, 60) =~= le32(q.flags));
    lemma_read_written_u32(b, 56, q.flags);
    assert(b.subrange(8, 40) =~= q.name@);
    let v0: i32 = q.minimum;
    assert((v0 as u32) as i32 == v0) by (bit_vector);
    let v1: i32 = q.maximum;
    assert((v1 as u32) as i32 == v1) by (bit_vector);
    let v2: i32 = q.step;
    assert((v2 as u32) as i32 == v2) by (bit_vector);
    let v3: i32 = q.default_value;
    assert((v3 as u32) as i32 == v3) by (bit_vector);
}

/// A `QueryExtCtrl` read back from its own bytes has the same fields (its byte string field holding 32 bytes).
pub proof fn lemma_query_ext_ctrl_layout(q: QueryExtCtrl)
    requires
        q.name@.len() == 32,
    ensures
        q.parsed(q.spec_bytes()),
{
    let b = q.spec_bytes();
    assert(b.subrange(0, 4) =~= le32(q.id));
    lemma_read_written_u32(b, 0, q.id);
    assert(b.subrange(4, 8) =~= le32(q.qtype));
    lemma_read_written_u32(b, 4, q.qtype);
    assert(b.subrange(40, 48) =~= le64(q.minimum as u64));
    lemma_read_written_u64(b, 40, q.minimum as u64);
    assert(b.subrange(48, 56) =~= le64(q.maximum as u64));
    lemma_read_written_u64(b, 48, q.maximum as u64);
    assert(b.subrange(56, 64) =~= le64(q.step));
    lemma_read_written_u64(b, 56, q.step);
    assert(b.subrange(64, 72) =~= le64(q.default_value as u64));
    lemma_read_written_u64(b, 64, q.default_value as u64);
    assert(b.subrange(72, 76) =~= le32(q.flags));
    lemma_read_written_u32(b, 72, q.flags);
    assert(b.subrange(76, 80) =~= le32(q.elem_size));
    lemma_read_written_u32(b, 76, q.elem_size);
    assert(b.subrange(80, 84) =~= le32(q.elems));
    lemma_read_written_u32(b, 80, q.elems);
    assert(b.subrange(84, 88) =~= le32(q.nr_of_dims));
    lemma_read_written_u32(b, 84, q.nr_of_dims);
    assert(b.subrange(88, 92) =~= le32(q.dims@[0]));
    lemma_read_written_u32(b, 88, q.dims@[0]);
    assert(b.subrange(92, 96) =~= le32(q.dims@[1]));
    lemma_read_written_u32(b, 92, q.dims@[1]);
    assert(b.subrange(96, 100) =~= le32(q.dims@[2]));
    lemma_read_written_u32(b, 96, q.dims@[2]);
    assert(b.subrange(100, 104) =~= le32(q.dims@[3]));
    lemma_read_written_u32(b, 100, q.dims@[3]);
    assert(b.subrange(8, 40) =~= q.name@);
    assert(q.dims@ =~= seq![u32_at(b, 88), u32_at(b, 92), u32_at(b, 96), u32_at(b, 100)]);
    let v0: i64 = q.minimum;
    assert((v0 as u64) as i64 == v0) by (bit_vector);
    let v1: i64 = q.maximum;
    assert((v1 as u64) as i64 == v1) by (bit_vector);
    let v2: i64 = q.default_value;
    assert((v2 as u64) as i64 == v2) by (bit_vector);
}

/// A `QueryMenu` read back from its own bytes has the same fields (its byte string field holding 32 bytes).
pub proof fn lemma_query_menu_layout(m: QueryMenu)
    requires
        m.data.raw@.len() == 32,
    ensures
        m.parsed(m.spec_bytes()),
{
    let b = m.spec_bytes();
    assert(b.subrange(0, 4) =~= le32(m.id));
    lemma_read_written_u32(b, 0, m.id);
    assert(b.subrange(4, 8) =~= le32(m.index));
    lemma_read_written_u32(b, 4, m.index);
    assert(b.subrange(8, 40) =~= m.data.raw@);
}

/// A `Control` read back from its own bytes has the same fields.
pub proof fn lemma_control_layout(c: Control)
    ensures
        c.parsed(c.spec_bytes()),
{
    let b = c.spec_bytes();
    assert(b.subrange(0, 4) =~= le32(c.id));
    lemma_read_written_u32(b, 0, c.id);
    assert(b.subrange(4, 8) =~= le32(c.value as u32));
    lemma_read_written_u32(b, 4, c.value as u32);
    let v0: i32 = c.value;
    assert((v0 as u32) as i32 == v0) by (bit_vector);
}

/// A `ExtControl` read back from its own bytes has the same fields.
pub proof fn lemma_ext_control_layout(e: ExtControl)
    ensures
        e.parsed(e.spec_bytes()),
{
    let b = e.spec_bytes();
    assert(b.subrange(0, 4) =~= le32(e.id));
    lemma_read_written_u32(b, 0, e.id);
    assert(b.subrange(4, 8) =~= le32(e.size));
    lemma_read_written_u32(b, 4, e.size);
    assert(b.subrange(12, 20) =~= le64(e.value as u64));
    lemma_read_written_u64(b, 12, e.value as u64);
    let v0: i64 = e.value;
    assert((v0 as u64) as i64 == v0) by (bit_vector);
}

} // verus!
