//! UEFI Loaded image Protocol
//!
//! The protocol's structure lives in firmware; this module holds it as plain
//! values, addresses included, and decides what its fields mean.
use vstd::prelude::*;

use crate::error::{error_of, EfiStatus, Result, UefiError};
use crate::proto::device_path::DevicePath;
use crate::proto::{Entity, Guid};

verus! {

/// Raw UEFI LoadedImage protocol structure
///
/// Pointers and handles are held as the addresses they hold.
#[derive(Debug, Clone, Copy, PartialEq, Eq, Structural)]
pub struct RawLoadedImage {
    pub revision: u32,
    pub parent: usize,
    pub system_table: usize,
    pub device: usize,
    pub path: usize,
    pub _reserved: usize,
    pub options_size: u32,
    pub options: usize,
    pub image_base: usize,
    pub image_size: u64,
    pub image_code: u32,
    pub image_data: u32,
    pub unload: usize,
}

/// The LoadedImage protocol of an image, as read from firmware
#[derive(Debug, Clone, Copy)]
pub struct LoadedImage {
    pub raw: RawLoadedImage,
}

/// The load options of `raw` read as a shell command line: `None` where
/// there are none, the address and the number of UTF-16 units otherwise, or
/// `INVALID_PARAMETER` where the size is not a whole number of units
pub open spec fn shell_options_of(raw: RawLoadedImage) -> Option<Result<(usize, usize)>> {
    if raw.options == 0 || raw.options_size == 0 {
        None
    } else if raw.options_size % 2 != 0 {
        Some(Err(error_of(EfiStatus::spec_invalid_parameter())))
    } else {
        Some(Ok((raw.options, (raw.options_size / 2) as usize)))
    }
}

impl LoadedImage {
    /// Returns the base address of the executable in memory
    pub fn image_base(&self) -> (r: usize)
        ensures
            r == self.raw.image_base,
    {
        self.raw.image_base
    }

    /// Returns the size of the executable in memory
    pub fn image_size(&self) -> (r: u64)
        ensures
            r == self.raw.image_size,
    {
        self.raw.image_size
    }

    /// The device handle that the image was loaded from, or [None]
    pub fn device(&self) -> (r: Option<usize>)
        ensures
            r == (if self.raw.device != 0 { Some(self.raw.device) } else { None::<usize> }),
    {
        if self.raw.device != 0 {
            Some(self.raw.device)
        } else {
            None
        }
    }

    /// The address of the device path of the image's file, if it has one
    pub fn file_path(&self) -> (r: Option<usize>)
        ensures
            r == (if self.raw.path != 0 { Some(self.raw.path) } else { None::<usize> }),
    {
        if self.raw.path != 0 {
            Some(self.raw.path)
        } else {
            None
        }
    }

    /// The options of this image, as the address and length in bytes of
    /// their buffer; none when the buffer is null or empty
    pub fn options(&self) -> (r: Option<Result<(usize, usize)>>)
        ensures
            r == (if self.raw.options == 0 || self.raw.options_size == 0 {
                None::<Result<(usize, usize)>>
            } else {
                Some(Ok::<(usize, usize), UefiError>((self.raw.options, self.raw.options_size as usize)))
            }),
    {
        if self.raw.options == 0 || self.raw.options_size == 0 {
            None
        } else {
            Some(Ok((self.raw.options, self.raw.options_size as usize)))
        }
    }

    /// The options of this image as a UTF-16 string, as the address and
    /// length in units of their buffer; none when the buffer is null or
    /// empty, `INVALID_PARAMETER` when its size is odd
    pub fn shell_options(&self) -> (r: Option<Result<(usize, usize)>>)
        ensures
            r == shell_options_of(self.raw),
    {
        if self.raw.options == 0 || self.raw.options_size == 0 {
            None
        } else {
            let len: usize = (self.raw.options_size / 2) as usize;
            if self.raw.options_size % 2 != 0 {
                return Some(Err(UefiError::new(EfiStatus::invalid_parameter())));
            }
            Some(Ok((self.raw.options, len)))
        }
    }

    /// Set the LoadOptions for this image to `len` items of `item_size`
    /// bytes at address `data`
    ///
    /// The options may take at most `u32::MAX` bytes.
    pub fn set_options(&mut self, data: usize, len: usize, item_size: usize)
        requires
            len * item_size <= u32::MAX,
            len <= u32::MAX,
            item_size <= u32::MAX,
        ensures
            final(self).raw == (RawLoadedImage {
                options: data,
                options_size: (len * item_size) as u32,
                ..old(self).raw
            }),
    {
        let len: u32 = len as u32;
        let size: u32 = item_size as u32;
        self.raw.options = data;
        self.raw.options_size = len * size;
    }

    /// Set the image load options in Shell format: the `units` UTF-16 units
    /// at `data`, nul included
    pub fn set_shell_options(&mut self, data: usize, units: usize)
        requires
            units * 2 <= u32::MAX,
        ensures
            final(self).raw == (RawLoadedImage {
                options: data,
                options_size: (units * 2) as u32,
                ..old(self).raw
            }),
    {
        self.set_options(data, units, 2);
    }

    /// Set the Device handle for this image
    pub fn set_device(&mut self, device: usize)
        ensures
            final(self).raw == (RawLoadedImage { device, ..old(self).raw }),
    {
        self.raw.device = device;
    }

    /// Set the device path for this image, given as its address
    pub fn set_path(&mut self, path: usize)
        ensures
            final(self).raw == (RawLoadedImage { path, ..old(self).raw }),
    {
        self.raw.path = path;
    }
}

/// The device path of a loaded image
#[derive(Debug, Clone, Copy)]
pub struct LoadedImageDevicePath {
    pub path: DevicePath,
}

impl LoadedImageDevicePath {
    /// The image's device path
    pub fn as_device_path(&self) -> (r: &DevicePath)
        ensures
            *r == self.path,
    {
        &self.path
    }
}

/// Shell options set on an image are read back as they were set, whenever
/// there are some
pub proof fn lemma_shell_options_roundtrip(raw: RawLoadedImage, data: usize, units: usize)
    requires
        units * 2 <= u32::MAX,
        data != 0,
        units != 0,
    ensures
        shell_options_of(RawLoadedImage { options: data, options_size: (units * 2) as u32, ..raw })
            == Some(Ok::<(usize, usize), UefiError>((data, units))),
{
}


impl Entity for LoadedImage {
    open spec fn spec_guid() -> Seq<u8> {
        crate::proto::swap_fields(seq![0x5Bu8, 0x1B, 0x31, 0xA1, 0x95, 0x62, 0x11, 0xD2, 0x8E, 0x3F, 0x00, 0xA0, 0xC9, 0x69, 0x72, 0x3B])
    }

    open spec fn spec_name() -> Seq<char> {
        "LoadedImage"@
    }

    fn guid() -> (r: Guid) {
        Guid::from_bytes([0x5Bu8, 0x1B, 0x31, 0xA1, 0x95, 0x62, 0x11, 0xD2, 0x8E, 0x3F, 0x00, 0xA0, 0xC9, 0x69, 0x72, 0x3B])
    }

    fn name() -> (r: &'static str) {
        "LoadedImage"
    }
}

impl Entity for LoadedImageDevicePath {
    open spec fn spec_guid() -> Seq<u8> {
        crate::proto::swap_fields(seq![0xBCu8, 0x62, 0x15, 0x7E, 0x3E, 0x33, 0x4F, 0xEC, 0x99, 0x20, 0x2D, 0x3B, 0x36, 0xD7, 0x50, 0xDF])
    }

    open spec fn spec_name() -> Seq<char> {
        "LoadedImageDevicePath"@
    }

    fn guid() -> (r: Guid) {
        Guid::from_bytes([0xBCu8, 0x62, 0x15, 0x7E, 0x3E, 0x33, 0x4F, 0xEC, 0x99, 0x20, 0x2D, 0x3B, 0x36, 0xD7, 0x50, 0xDF])
    }

    fn name() -> (r: &'static str) {
        "LoadedImageDevicePath"
    }
}

} // verus!
