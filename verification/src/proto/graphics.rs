//! UEFI Graphics related protocols
//!
//! The graphics output protocol lives in firmware; this module holds what is
//! read from it, as plain values, and decides what to hand it.
use vstd::prelude::*;

use crate::error::{error_of, EfiStatus, Result, UefiError};
use crate::proto::{Entity, Guid};

verus! {

/// Size in bytes of [`RawGraphicsInfo`]
pub const GRAPHICS_INFO_SIZE: usize = 36;

/// Size in bytes of a [`RawBltPixel`]
pub const BLT_PIXEL_SIZE: usize = 4;

/// Read only structure defining information about available video modes
#[derive(Debug, Clone, Copy, PartialEq, Eq, Structural)]
pub struct RawGraphicsMode {
    /// Modes supported by UEFI; valid mode numbers are `0` to `max_mode - 1`
    pub max_mode: u32,

    /// Currently selected mode
    pub mode: u32,

    /// Address of the read only info structure
    pub info: usize,

    /// Size of the info structure
    pub info_size: usize,

    /// Address of the framebuffer
    pub fb_base: u64,

    /// Size of the framebuffer
    pub fb_size: usize,
}

/// Information about a video mode
#[derive(Debug, Clone, Copy, PartialEq, Eq, Structural)]
pub struct RawGraphicsInfo {
    /// Version of this structure
    pub version: u32,

    /// Horizontal resolution
    pub horizontal: u32,

    /// Vertical resolution
    pub vertical: u32,

    /// Physical pixel format
    pub format: RawPixelFormat,

    /// Only valid if `format` is `BIT_MASK`
    pub info: RawPixelMask,

    /// Pixels per video memory line, padding included
    pub stride: u32,
}

/// Bits set here define the bits making up a pixel
#[derive(Debug, Clone, Copy, PartialEq, Eq, Structural)]
pub struct RawPixelMask {
    pub red: u32,
    pub green: u32,
    pub blue: u32,
    pub reserved: u32,
}

/// Raw pixel format number
#[derive(Debug, Clone, Copy, PartialEq, Eq, Structural)]
pub struct RawPixelFormat(pub u32);

impl RawPixelFormat {
    /// RGB Pixels
    pub fn rgb() -> (r: Self)
        ensures
            r.0 == 0,
    {
        Self(0)
    }

    /// BGR Pixels
    pub fn bgr() -> (r: Self)
        ensures
            r.0 == 1,
    {
        Self(1)
    }

    /// Pixels defined by [`RawPixelMask`]
    pub fn bit_mask() -> (r: Self)
        ensures
            r.0 == 2,
    {
        Self(2)
    }

    /// Only blt supported, no framebuffer
    pub fn blt_only() -> (r: Self)
        ensures
            r.0 == 3,
    {
        Self(3)
    }

    /// Current max enum value
    pub fn format_max() -> (r: Self)
        ensures
            r.0 == 4,
    {
        Self(4)
    }
}

/// Raw graphics output protocol
///
/// Each service entry is held as its address, `None` where firmware left it
/// out; `mode` is the address of the [`RawGraphicsMode`].
/// The name of the raw pixel format `v`, where it is one of the defined
/// values
pub open spec fn pixel_format_name(v: u32) -> Option<Seq<char>> {
    if v == 0 {
        Some("RawPixelFormat::RGB"@)
    } else if v == 1 {
        Some("RawPixelFormat::BGR"@)
    } else if v == 2 {
        Some("RawPixelFormat::BIT_MASK"@)
    } else if v == 3 {
        Some("RawPixelFormat::BLT_ONLY"@)
    } else if v == 4 {
        Some("RawPixelFormat::FORMAT_MAX"@)
    } else {
        None
    }
}

impl RawPixelFormat {
    /// The name it is shown by, where it is one of the defined values
    pub fn name(&self) -> (r: Option<&'static str>)
        ensures
            match r {
                Some(s) => pixel_format_name(self.0) == Some(s@),
                None => pixel_format_name(self.0) is None,
            },
    {
        if self.0 == 0 {
            Some("RawPixelFormat::RGB")
        } else if self.0 == 1 {
            Some("RawPixelFormat::BGR")
        } else if self.0 == 2 {
            Some("RawPixelFormat::BIT_MASK")
        } else if self.0 == 3 {
            Some("RawPixelFormat::BLT_ONLY")
        } else if self.0 == 4 {
            Some("RawPixelFormat::FORMAT_MAX")
        } else {
            None
        }
    }
}

#[derive(Debug, Clone, Copy, PartialEq, Eq, Structural)]
pub struct RawGraphicsOutput {
    pub query_mode: Option<usize>,
    pub set_mode: Option<usize>,
    pub blt: Option<usize>,
    pub mode: usize,
}

/// A blt pixel, in blue, green, red order
#[derive(Debug, Clone, Copy, PartialEq, Eq, Structural)]
pub struct RawBltPixel {
    pub blue: u8,
    pub green: u8,
    pub red: u8,
    pub reserved: u8,
}

/// Raw blt operation number
#[derive(Debug, Clone, Copy, PartialEq, Eq, Structural)]
pub struct RawBltOperation(pub u32);

impl RawBltOperation {
    /// A raw operation of number `value`
    pub fn new(value: u32) -> (r: RawBltOperation)
        ensures
            r.0 == value,
    {
        Self(value)
    }

    /// The raw number of `op`
    pub fn from(op: BltOperation) -> (r: RawBltOperation)
        ensures
            r.0 == blt_number(op),
    {
        let v: u32 = match op {
            BltOperation::VideoFill => 0,
            BltOperation::VideoToBuffer => 1,
            BltOperation::BufferToVideo => 2,
            BltOperation::VideoToVideo => 3,
        };
        RawBltOperation::new(v)
    }
}

/// UEFI Framebuffer pixel format
/// The name of the raw blt operation `v`, where it is one of the defined
/// values
pub open spec fn blt_operation_name(v: u32) -> Option<Seq<char>> {
    if v == 0 {
        Some("RawBltOperation::VIDEO_FILL"@)
    } else if v == 1 {
        Some("RawBltOperation::VIDEO_TO_BUFFER"@)
    } else if v == 2 {
        Some("RawBltOperation::BUFFER_TO_VIDEO"@)
    } else if v == 3 {
        Some("RawBltOperation::VIDEO_TO_VIDEO"@)
    } else if v == 4 {
        Some("RawBltOperation::OPERATION_MAX"@)
    } else {
        None
    }
}

impl RawBltOperation {
    /// The name it is shown by, where it is one of the defined values
    pub fn name(&self) -> (r: Option<&'static str>)
        ensures
            match r {
                Some(s) => blt_operation_name(self.0) == Some(s@),
                None => blt_operation_name(self.0) is None,
            },
    {
        if self.0 == 0 {
            Some("RawBltOperation::VIDEO_FILL")
        } else if self.0 == 1 {
            Some("RawBltOperation::VIDEO_TO_BUFFER")
        } else if self.0 == 2 {
            Some("RawBltOperation::BUFFER_TO_VIDEO")
        } else if self.0 == 3 {
            Some("RawBltOperation::VIDEO_TO_VIDEO")
        } else if self.0 == 4 {
            Some("RawBltOperation::OPERATION_MAX")
        } else {
            None
        }
    }
}

#[derive(Debug, Clone, Copy, PartialEq, Eq, Structural)]
pub enum PixelFormat {
    /// RGB Pixels
    RGB,

    /// BGR Pixels
    BGR,

    /// Pixels defined by [`RawPixelMask`]
    BitMask,

    /// Only blt supported, no framebuffer
    BltOnly,
}

/// The format of raw format number `v`, which must be below four
pub open spec fn pixel_format_of(v: u32) -> PixelFormat {
    if v == 0 {
        PixelFormat::RGB
    } else if v == 1 {
        PixelFormat::BGR
    } else if v == 2 {
        PixelFormat::BitMask
    } else {
        PixelFormat::BltOnly
    }
}

impl PixelFormat {
    /// The format of a raw format number
    ///
    /// Only the four defined formats convert.
    pub fn from(value: RawPixelFormat) -> (r: PixelFormat)
        requires
            value.0 < 4,
        ensures
            r == pixel_format_of(value.0),
    {
        if value.0 == 0 {
            PixelFormat::RGB
        } else if value.0 == 1 {
            PixelFormat::BGR
        } else if value.0 == 2 {
            PixelFormat::BitMask
        } else {
            PixelFormat::BltOnly
        }
    }
}

/// Blt operation
#[derive(Debug, Clone, Copy, PartialEq, Eq, Structural)]
pub enum BltOperation {
    /// Write data from the 0th buffer pixel to every pixel in the block
    VideoFill,

    /// Read data from video block to buffer block
    VideoToBuffer,

    /// Write data from block buffer to video buffer
    BufferToVideo,

    /// Copy data from source block to destination block
    VideoToVideo,
}

/// The raw number of a blt operation
pub open spec fn blt_number(op: BltOperation) -> u32 {
    match op {
        BltOperation::VideoFill => 0,
        BltOperation::VideoToBuffer => 1,
        BltOperation::BufferToVideo => 2,
        BltOperation::VideoToVideo => 3,
    }
}

/// The operation of raw number `v`, which must be below four
pub open spec fn blt_operation_of(v: u32) -> BltOperation {
    if v == 0 {
        BltOperation::VideoFill
    } else if v == 1 {
        BltOperation::VideoToBuffer
    } else if v == 2 {
        BltOperation::BufferToVideo
    } else {
        BltOperation::VideoToVideo
    }
}

impl BltOperation {
    /// The operation of a raw operation number
    ///
    /// Only the four defined operations convert.
    pub fn from(value: RawBltOperation) -> (r: BltOperation)
        requires
            value.0 < 4,
        ensures
            r == blt_operation_of(value.0),
    {
        if value.0 == 0 {
            BltOperation::VideoFill
        } else if value.0 == 1 {
            BltOperation::VideoToBuffer
        } else if value.0 == 2 {
            BltOperation::BufferToVideo
        } else {
            BltOperation::VideoToVideo
        }
    }
}

/// Each blt operation is its UEFI `EFI_GRAPHICS_OUTPUT_BLT_OPERATION`
/// number: `EfiBltVideoFill` 0, `EfiBltVideoToBltBuffer` 1,
/// `EfiBltBufferToVideo` 2, `EfiBltVideoToVideo` 3; each of those numbers
/// converts back to its operation and is shown by that operation's name
pub proof fn lemma_blt_uefi_numbers()
    ensures
        blt_number(BltOperation::VideoFill) == 0,
        blt_number(BltOperation::VideoToBuffer) == 1,
        blt_number(BltOperation::BufferToVideo) == 2,
        blt_number(BltOperation::VideoToVideo) == 3,
        blt_operation_of(0) == BltOperation::VideoFill,
        blt_operation_of(1) == BltOperation::VideoToBuffer,
        blt_operation_of(2) == BltOperation::BufferToVideo,
        blt_operation_of(3) == BltOperation::VideoToVideo,
        blt_operation_name(blt_number(BltOperation::VideoFill)) == Some("RawBltOperation::VIDEO_FILL"@),
        blt_operation_name(blt_number(BltOperation::VideoToBuffer)) == Some("RawBltOperation::VIDEO_TO_BUFFER"@),
        blt_operation_name(blt_number(BltOperation::BufferToVideo)) == Some("RawBltOperation::BUFFER_TO_VIDEO"@),
        blt_operation_name(blt_number(BltOperation::VideoToVideo)) == Some("RawBltOperation::VIDEO_TO_VIDEO"@),
{
}

/// Converting an operation to its raw number and back gives the operation,
/// and each defined raw number is the number of the operation it converts to
pub proof fn lemma_blt_roundtrip(op: BltOperation, v: u32)
    ensures
        blt_number(op) < 4,
        blt_operation_of(blt_number(op)) == op,
        v < 4 ==> blt_number(blt_operation_of(v)) == v,
{
}

/// UEFI Graphics Mode Information
#[derive(Debug, Clone, Copy, PartialEq, Eq, Structural)]
pub struct GraphicsMode {
    /// Mode number
    mode: u32,

    info: RawGraphicsInfo,
}

impl GraphicsMode {
    /// Mode number
    pub closed spec fn spec_mode(&self) -> u32 {
        self.mode
    }

    /// The mode's information
    pub closed spec fn spec_info(&self) -> RawGraphicsInfo {
        self.info
    }

    /// Mode `mode`, described by `info`
    pub fn new(mode: u32, info: RawGraphicsInfo) -> (r: Self)
        ensures
            r.spec_mode() == mode,
            r.spec_info() == info,
    {
        Self { mode, info }
    }

    /// UEFI Framebuffer (horizontal, vertical) resolution
    ///
    /// Otherwise known as (width, height)
    pub fn res(&self) -> (r: (u32, u32))
        ensures
            r == (self.spec_info().horizontal, self.spec_info().vertical),
    {
        (self.info.horizontal, self.info.vertical)
    }

    /// UEFI Framebuffer stride
    pub fn stride(&self) -> (r: u32)
        ensures
            r == self.spec_info().stride,
    {
        self.info.stride
    }

    /// Mode number
    #[verifier::when_used_as_spec(spec_mode)]
    pub fn mode(&self) -> (r: u32)
        ensures
            r == self.spec_mode(),
    {
        self.mode
    }

    /// Pixel Format
    ///
    /// Only the four defined formats have one.
    pub fn format(&self) -> (r: PixelFormat)
        requires
            self.spec_info().format.0 < 4,
        ensures
            r == pixel_format_of(self.spec_info().format.0),
    {
        PixelFormat::from(self.info.format)
    }
}

/// The graphics output protocol, as read from firmware: its services, its
/// mode structure, and the information of the current mode
#[derive(Debug, Clone, Copy)]
pub struct GraphicsOutput {
    /// The protocol's service entries
    pub raw: RawGraphicsOutput,

    /// The mode structure
    pub mode: RawGraphicsMode,

    /// The information the mode structure points at
    pub info: RawGraphicsInfo,
}

/// A blt request, as firmware's `Blt` takes it
#[derive(Debug, Clone, Copy)]
pub struct BltRequest {
    pub op: RawBltOperation,
    pub src: (usize, usize),
    pub dest: (usize, usize),
    pub res: (usize, usize),

    /// Bytes per line of the buffer
    pub delta: usize,
}

impl GraphicsOutput {
    /// What firmware's answer to `query_mode` for `mode` means: the mode,
    /// where firmware succeeded and gave information large enough; its
    /// status where it failed; `BUFFER_TOO_SMALL` otherwise
    pub fn query_mode(mode: u32, status: EfiStatus, size: usize, info: Option<RawGraphicsInfo>) -> (r: Result<GraphicsMode>)
        ensures
            (r is Ok) == (status.0 == 0 && info is Some && size >= GRAPHICS_INFO_SIZE),
            r matches Ok(m) ==> m.spec_mode() == mode && m.spec_info() == info->0,
            status.0 != 0 ==> r == Err::<GraphicsMode, UefiError>(error_of(status)),
            status.0 == 0 && !(info is Some && size >= GRAPHICS_INFO_SIZE) ==> r == Err::<GraphicsMode, UefiError>(error_of(EfiStatus::spec_buffer_too_small())),
    {
        if status.is_success() && info.is_some() && size >= GRAPHICS_INFO_SIZE {
            Ok(GraphicsMode::new(mode, info.unwrap()))
        } else if !status.is_success() {
            Err(UefiError::new(status))
        } else {
            Err(UefiError::new(EfiStatus::buffer_too_small()))
        }
    }

    /// The answer to a mode query once the information firmware allocated
    /// was handed back, `freed` being what freeing it answered (`None`
    /// where boot services are gone): an error freeing replaces the mode
    pub fn query_mode_done(r: Result<GraphicsMode>, freed: Option<Result<()>>) -> (out: Result<GraphicsMode>)
        ensures
            match r {
                Ok(m) => match freed {
                    Some(Err(e)) => out == Err::<GraphicsMode, UefiError>(e),
                    _ => out == Ok::<GraphicsMode, UefiError>(m),
                },
                Err(e) => out == Err::<GraphicsMode, UefiError>(e),
            },
    {
        match r {
            Ok(m) => match freed {
                Some(Err(e)) => Err(e),
                _ => Ok(m),
            },
            Err(e) => Err(e),
        }
    }

    /// The graphics modes to query, in order: every valid mode, the valid
    /// modes being those below `max_mode`
    pub fn modes(&self) -> (r: Vec<u32>)
        ensures
            r@.len() == self.mode.max_mode,
            forall|i: int| 0 <= i < r@.len() ==> r@[i] == i,
    {
        let count: u32 = self.mode.max_mode;
        let mut out: Vec<u32> = Vec::new();
        let mut mode: u32 = 0;
        while mode < count
            invariant
                count == self.mode.max_mode,
                mode <= count,
                out@.len() == mode,
                forall|i: int| 0 <= i < out@.len() ==> out@[i] == i,
            decreases count - mode,
        {
            out.push(mode);
            mode = mode + 1;
        }
        out
    }

    /// Current [`GraphicsMode`]
    pub fn mode(&self) -> (r: GraphicsMode)
        ensures
            r.spec_mode() == self.mode.mode,
            r.spec_info() == self.info,
    {
        GraphicsMode::new(self.mode.mode, self.info)
    }

    /// Blt, or BLock Transfer, of a `res` (width, height) block from `src`
    /// to `dest` (x, y), with a buffer of `buffer_len` pixels, `delta`
    /// pixels per line
    ///
    /// The buffer must hold at least `width * height` pixels, or else
    /// `INVALID_PARAMETER` is returned.
    pub fn blt(
        &self,
        buffer_len: usize,
        op: BltOperation,
        src: (usize, usize),
        dest: (usize, usize),
        res: (usize, usize),
        delta: usize,
    ) -> (r: Result<BltRequest>)
        requires
            res.0 * res.1 <= usize::MAX,
            delta * BLT_PIXEL_SIZE <= usize::MAX,
        ensures
            (r is Ok) == (buffer_len >= res.0 * res.1),
            r is Err ==> r == Err::<BltRequest, UefiError>(error_of(EfiStatus::spec_invalid_parameter())),
            r matches Ok(q) ==> q == (BltRequest {
                op: RawBltOperation(blt_number(op)),
                src,
                dest,
                res,
                delta: (delta * BLT_PIXEL_SIZE) as usize,
            }),
    {
        if buffer_len < res.0 * res.1 {
            return Err(UefiError::new(EfiStatus::invalid_parameter()));
        }
        Ok(BltRequest { op: RawBltOperation::from(op), src, dest, res, delta: delta * BLT_PIXEL_SIZE })
    }

    /// The current framebuffer
    pub fn framebuffer(&self) -> (r: Framebuffer)
        ensures
            r.spec_ptr() == self.mode.fb_base,
            r.spec_size() == self.mode.fb_size,
            r.spec_stride() == self.info.stride,
    {
        Framebuffer::new(self.mode.fb_base, self.mode.fb_size, self.mode().stride())
    }
}

/// UEFI Framebuffer
#[derive(Debug, Clone, Copy)]
pub struct Framebuffer {
    /// Address of the framebuffer
    ptr: u64,

    /// Size of the framebuffer in bytes
    size: usize,

    /// Stride of the framebuffer in bytes
    stride: u32,
}

impl Framebuffer {
    /// Address of the framebuffer
    pub closed spec fn spec_ptr(&self) -> u64 {
        self.ptr
    }

    /// Size of the framebuffer in bytes
    pub closed spec fn spec_size(&self) -> usize {
        self.size
    }

    /// Stride of the framebuffer in bytes
    pub closed spec fn spec_stride(&self) -> u32 {
        self.stride
    }

    /// A framebuffer at `ptr` of `size` bytes and `stride`
    pub fn new(ptr: u64, size: usize, stride: u32) -> (r: Self)
        ensures
            r.spec_ptr() == ptr,
            r.spec_size() == size,
            r.spec_stride() == stride,
    {
        Self { ptr, size, stride }
    }

    /// Number of whole pixels in the framebuffer
    pub fn pixels(&self) -> (r: usize)
        ensures
            r == self.spec_size() / 4,
    {
        self.size / 4
    }

    /// Byte offset of pixel `(x, y)`: `y * stride + x`, the stride being
    /// held in bytes; the offset must not lie past the framebuffer's size
    pub fn index(&self, x: u32, y: u32) -> (r: usize)
        requires
            y * self.spec_stride() + x <= u32::MAX,
            y * self.spec_stride() + x <= self.spec_size(),
        ensures
            r == y * self.spec_stride() + x,
    {
        let index: u32 = y * self.stride + x;
        index as usize
    }
}

/// A UEFI BGR888 Pixel
///
/// 32-bits in size, 24-bits usable
#[derive(Debug, Clone, Copy)]
pub struct Pixel {
    data: [u8; 4],
}

impl View for Pixel {
    type V = Seq<u8>;

    /// The pixel's bytes: blue, green, red, then an unused byte
    closed spec fn view(&self) -> Seq<u8> {
        self.data@
    }
}

impl Pixel {
    /// Create a new pixel, from red, green and blue
    pub fn new(r: u8, g: u8, b: u8) -> (p: Self)
        ensures
            p@ == seq![b, g, r, 0u8],
    {
        Self { data: [b, g, r, 0] }
    }

    /// Create a new pixel using `data` as-is, as BGR888
    pub fn from_bytes(data: [u8; 4]) -> (p: Self)
        ensures
            p@ == data@,
    {
        Self { data }
    }

    /// Each 8 bit color component in a byte, blue first
    pub fn as_bytes(&self) -> (r: &[u8; 4])
        ensures
            r@ == self@,
    {
        &self.data
    }

    /// Red component
    pub fn red(&self) -> (r: u8)
        ensures
            r == self@[2],
    {
        self.data[2]
    }

    /// Green component
    pub fn green(&self) -> (r: u8)
        ensures
            r == self@[1],
    {
        self.data[1]
    }

    /// Blue component
    pub fn blue(&self) -> (r: u8)
        ensures
            r == self@[0],
    {
        self.data[0]
    }
}

/// A pixel made from red, green and blue gives those back
pub proof fn lemma_pixel_components(r: u8, g: u8, b: u8, p: Pixel)
    requires
        p@ == seq![b, g, r, 0u8],
    ensures
        p@[2] == r,
        p@[1] == g,
        p@[0] == b,
{
}

/// UEFI Pixel Coordinate (x, y)
#[derive(Debug, Clone, Copy, PartialEq, Eq, Structural)]
pub struct Coord(pub u32, pub u32);

impl Coord {
    /// Coordinate `(x, y)`
    pub fn new(x: u32, y: u32) -> (r: Self)
        ensures
            r.0 == x,
            r.1 == y,
    {
        Self(x, y)
    }
}

/// A double buffer for the framebuffer
#[derive(Debug)]
pub struct Double {
    pub fb: Framebuffer,
}

impl Entity for GraphicsOutput {
    open spec fn spec_guid() -> Seq<u8> {
        crate::proto::swap_fields(seq![0x90u8, 0x42, 0xA9, 0xDE, 0x23, 0xDC, 0x4A, 0x38, 0x96, 0xFB, 0x7A, 0xDE, 0xD0, 0x80, 0x51, 0x6A])
    }

    open spec fn spec_name() -> Seq<char> {
        "GraphicsOutput"@
    }

    fn guid() -> (r: Guid) {
        Guid::from_bytes([0x90u8, 0x42, 0xA9, 0xDE, 0x23, 0xDC, 0x4A, 0x38, 0x96, 0xFB, 0x7A, 0xDE, 0xD0, 0x80, 0x51, 0x6A])
    }

    fn name() -> (r: &'static str) {
        "GraphicsOutput"
    }
}

} // verus!
