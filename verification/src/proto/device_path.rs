//! UEFI Device Path Protocol
//!
//! Device paths are variable length, byte packed structures: a list of
//! nodes, each starting with a four byte header, ending with an end node.
use vstd::prelude::*;

use crate::error::{error_of, EfiStatus, Result, UefiError};
use crate::proto::{Entity, Guid};
use crate::string::{decode_utf16_lossy, encode_str, encode_utf16, has_nul, nul_terminated, UefiString};
use crate::util::{le_u16, push_u16, u16_bytes};

verus! {

/// [`RawDevicePath`] types
#[derive(Debug, Clone, Copy, PartialEq, Eq, Structural)]
pub struct RawDevicePathType(pub u8);

impl RawDevicePathType {
    /// Represents a device connected to the system
    pub fn hardware() -> (r: Self)
        ensures
            r.0 == 0x01,
    {
        Self(0x01)
    }

    /// Represents ACPI Plug and Play hardware
    pub fn acpi() -> (r: Self)
        ensures
            r.0 == 0x02,
    {
        Self(0x02)
    }

    /// Represents the connection to a device on another system
    pub fn messaging() -> (r: Self)
        ensures
            r.0 == 0x03,
    {
        Self(0x03)
    }

    /// Represents the portion of an entity that is being abstracted,
    /// such as a file path on a storage device
    pub fn media() -> (r: Self)
        ensures
            r.0 == 0x04,
    {
        Self(0x04)
    }

    /// Used by platform firmware to select legacy bios boot options
    pub fn bios() -> (r: Self)
        ensures
            r.0 == 0x05,
    {
        Self(0x05)
    }

    /// Represents the end of the device path
    pub fn end() -> (r: Self)
        ensures
            r.0 == 0x7F,
    {
        Self(0x7F)
    }
}

/// [`RawDevicePath`] Sub Types
#[derive(Debug, Clone, Copy, PartialEq, Eq, Structural)]
pub struct RawDevicePathSubType(pub u8);

impl RawDevicePathSubType {
    /// A file media path
    pub fn media_file() -> (r: Self)
        ensures
            r.0 == 0x04,
    {
        Self(0x04)
    }

    /// Represents a vendor defined [Media][`RawDevicePathType::media`] path
    pub fn media_vendor() -> (r: Self)
        ensures
            r.0 == 0x03,
    {
        Self(0x03)
    }

    /// The end of the entire device path
    pub fn end_entire() -> (r: Self)
        ensures
            r.0 == 0xFF,
    {
        Self(0xFF)
    }

    /// The end of this device path instance, and the start of a new one
    pub fn end_instance() -> (r: Self)
        ensures
            r.0 == 0x01,
    {
        Self(0x01)
    }
}

/// Raw device path node header
#[derive(Debug, Clone, Copy)]
pub struct RawDevicePath {
    pub ty: RawDevicePathType,

    pub sub_ty: RawDevicePathSubType,

    /// Length, in bytes, including this header, little-endian
    pub len: [u8; 2],
}

/// The bytes of a node header
pub open spec fn node_bytes(n: RawDevicePath) -> Seq<u8> {
    seq![n.ty.0, n.sub_ty.0] + n.len@
}

/// The bytes of the end of path node
pub open spec fn end_node_bytes() -> Seq<u8> {
    seq![0x7Fu8, 0xFFu8, 4u8, 0u8]
}

/// The little-endian bytes of each unit, in order
pub open spec fn units_bytes(units: Seq<u16>) -> Seq<u8>
    decreases units.len(),
{
    if units.len() == 0 {
        Seq::empty()
    } else {
        units_bytes(units.drop_last()) + u16_bytes(units.last() as int)
    }
}

/// The file path node for `path`, followed by an end node: what
/// [`file_path_node`] builds, or the error it gives
pub open spec fn file_path_node_spec(path: Seq<char>) -> Result<Seq<u8>> {
    let units = encode_utf16(path).push(0);
    let path_len: int = units.len() as int * 2;
    if path_len + 4 > 0xFFFF {
        Err(error_of(EfiStatus::spec_bad_buffer_size()))
    } else {
        Ok(seq![0x04u8, 0x04u8] + u16_bytes(path_len + 4) + units_bytes(units) + end_node_bytes())
    }
}

/// The little-endian bytes of `v`, as an array
fn le_bytes(v: u16) -> (r: [u8; 2])
    ensures
        r@ == u16_bytes(v as int),
{
    let mut out: Vec<u8> = Vec::new();
    push_u16(&mut out, v);
    proof {
        crate::util::lemma_u16_bytes_len(v as int);
    }
    [out[0], out[1]]
}

impl RawDevicePath {
    /// Create a new [RawDevicePath] header
    ///
    /// It is up to you to make sure this is a valid node.
    pub fn create(ty: u8, sub_ty: u8, len: u16) -> (r: Self)
        ensures
            r.ty.0 == ty,
            r.sub_ty.0 == sub_ty,
            r.len@ == u16_bytes(len as int),
    {
        Self { ty: RawDevicePathType(ty), sub_ty: RawDevicePathSubType(sub_ty), len: le_bytes(len) }
    }

    /// Create the end of path node
    pub fn end() -> (r: Self)
        ensures
            node_bytes(r) == end_node_bytes(),
    {
        let r = Self {
            ty: RawDevicePathType::end(),
            sub_ty: RawDevicePathSubType::end_entire(),
            len: le_bytes(4),
        };
        proof {
            reveal(u16_bytes);
            assert(node_bytes(r) =~= end_node_bytes());
        }
        r
    }

    /// Create a media filepath node header for a null terminated path of
    /// `len` bytes
    ///
    /// The node length, `len + 4`, must fit in a `u16`.
    pub fn media_file(len: u16) -> (r: Self)
        requires
            len + 4 <= u16::MAX,
        ensures
            r.ty.0 == 0x04,
            r.sub_ty.0 == 0x04,
            r.len@ == u16_bytes(len + 4),
    {
        let len: u16 = len + 4;
        Self {
            ty: RawDevicePathType::media(),
            sub_ty: RawDevicePathSubType::media_file(),
            len: le_bytes(len),
        }
    }

    /// The bytes of this node header
    pub fn to_bytes(&self) -> (r: [u8; 4])
        ensures
            r@ == node_bytes(*self),
    {
        let r = [self.ty.0, self.sub_ty.0, self.len[0], self.len[1]];
        assert(r@ =~= node_bytes(*self));
        r
    }
}

/// The media file path node for `path`, terminated by an end of path node:
/// the bytes that appending a file path to a device path appends
///
/// The node is a media file header, the path as nul terminated UTF-16, then
/// the end node. `BAD_BUFFER_SIZE` is returned where the node's length does
/// not fit in its 16 bit length field.
pub fn file_path_node(path: &str) -> (r: Result<Vec<u8>>)
    ensures
        match r {
            Ok(v) => file_path_node_spec(path@) == Ok::<Seq<u8>, UefiError>(v@),
            Err(e) => file_path_node_spec(path@) == Err::<Seq<u8>, UefiError>(e),
        },
{
    let mut units = encode_str(path);
    units.push(0);
    let n: usize = units.len();
    if n > 0x7FFD {
        return Err(UefiError::new(EfiStatus::bad_buffer_size()));
    }
    let path_len: u16 = (n * 2) as u16;
    let media = RawDevicePath::media_file(path_len);
    let header = media.to_bytes();
    let mut out: Vec<u8> = Vec::new();
    out.push(header[0]);
    out.push(header[1]);
    out.push(header[2]);
    out.push(header[3]);
    proof {
        assert(out@ =~= seq![0x04u8, 0x04u8] + u16_bytes(path_len + 4));
    }
    let ghost start = out@;
    let mut i: usize = 0;
    while i < n
        invariant
            n == units@.len(),
            i <= n,
            out@ == start + units_bytes(units@.subrange(0, i as int)),
        decreases n - i,
    {
        proof {
            assert(units@.subrange(0, i + 1).drop_last() =~= units@.subrange(0, i as int));
        }
        push_u16(&mut out, units[i]);
        i = i + 1;
    }
    proof {
        assert(units@.subrange(0, n as int) =~= units@);
    }
    let end = RawDevicePath::end().to_bytes();
    out.push(end[0]);
    out.push(end[1]);
    out.push(end[2]);
    out.push(end[3]);
    proof {
        assert(out@ =~= start + units_bytes(units@) + end_node_bytes());
    }
    Ok(out)
}

/// Each unit takes two bytes
pub proof fn lemma_units_bytes_len(units: Seq<u16>)
    ensures
        units_bytes(units).len() == 2 * units.len(),
    decreases units.len(),
{
    if units.len() > 0 {
        lemma_units_bytes_len(units.drop_last());
        crate::util::lemma_u16_bytes_len(units.last() as int);
    }
}

/// The length field of the media file node [`file_path_node`] builds is the
/// length of that node: everything but the end node that follows it
pub proof fn lemma_file_path_node_length(path: Seq<char>)
    ensures
        file_path_node_spec(path) matches Ok(b) ==> ({
            &&& b.len() >= 8
            &&& le_u16(b, 2) == b.len() - NODE_HEADER_SIZE
            &&& b.subrange(b.len() - NODE_HEADER_SIZE, b.len() as int) == end_node_bytes()
        }),
{
    let units = encode_utf16(path).push(0);
    let path_len: int = units.len() as int * 2;
    if path_len + 4 <= 0xFFFF {
        let head = seq![0x04u8, 0x04u8] + u16_bytes(path_len + 4);
        let b = head + units_bytes(units) + end_node_bytes();
        lemma_units_bytes_len(units);
        crate::util::lemma_u16_roundtrip(path_len + 4);
        assert(b.subrange(2, 4) =~= u16_bytes(path_len + 4));
        assert(le_u16(b, 2) == le_u16(b.subrange(2, 4), 0));
        assert(b.subrange(b.len() - 4, b.len() as int) =~= end_node_bytes());
    }
}

/// Size in bytes of a node header, and of the end of path node
pub const NODE_HEADER_SIZE: usize = 4;

/// A device path, as firmware hands it out: the address of its first node
#[derive(Debug, Clone, Copy, PartialEq, Eq, Structural)]
pub struct DevicePath {
    addr: usize,
}

impl DevicePath {
    /// The address of the first node
    pub closed spec fn spec_addr(&self) -> usize {
        self.addr
    }

    /// The device path whose first node is at `addr`
    pub fn new(addr: usize) -> (r: Self)
        ensures
            r.spec_addr() == addr,
    {
        Self { addr }
    }

    /// The address of the first node
    pub fn as_ptr(&self) -> (r: usize)
        ensures
            r == self.spec_addr(),
    {
        self.addr
    }
}

/// Represents something that can be represented as a [`DevicePath`]
pub trait AsDevicePath {
    /// The device path it represents
    spec fn spec_device_path(&self) -> DevicePath;

    /// The device path it represents
    fn as_device_path(&self) -> (r: &DevicePath)
        ensures
            *r == self.spec_device_path(),
    ;
}

impl AsDevicePath for DevicePath {
    open spec fn spec_device_path(&self) -> DevicePath {
        *self
    }

    fn as_device_path(&self) -> (r: &DevicePath) {
        self
    }
}

/// Device Path Utilities protocol
///
/// Each service entry is held as its address, `None` where firmware left it
/// out.
#[derive(Debug, Clone, Copy, PartialEq, Eq, Structural)]
pub struct RawDevicePathUtil {
    pub get_device_path_size: Option<usize>,
    pub duplicate_device_path: Option<usize>,
    pub append_device_path: Option<usize>,
    pub append_device_node: Option<usize>,
    pub append_device_path_instance: usize,
    pub get_next_device_path_instance: usize,
    pub is_device_path_multi_instance: usize,
    pub create_device_node: usize,
}

/// Device Path Display protocol
///
/// Each service entry is held as its address, `None` where firmware left it
/// out.
#[derive(Debug, Clone, Copy, PartialEq, Eq, Structural)]
pub struct RawDevicePathToText {
    pub convert_device_node_to_text: Option<usize>,
    pub convert_device_path_to_text: Option<usize>,
}

/// Whether `r` is what a text conversion answering `text` means: the nul
/// terminated string firmware allocated, or `OUT_OF_RESOURCES` where it
/// answered null
pub open spec fn text_answered(text: Option<&[u16]>, r: Result<UefiString>) -> bool {
    match text {
        None => r == Err::<UefiString, UefiError>(error_of(EfiStatus::spec_out_of_resources())),
        Some(d) => r matches Ok(s) && s.wf() && s@ == nul_terminated(d@),
    }
}

/// Whether `r` is the text conversion answering `text` as a Rust string,
/// each unpaired surrogate replaced by U+FFFD
pub open spec fn lossy_answered(text: Option<&[u16]>, r: Result<String>) -> bool {
    match text {
        None => r == Err::<String, UefiError>(error_of(EfiStatus::spec_out_of_resources())),
        Some(d) => r matches Ok(s) && s@ == decode_utf16_lossy(nul_terminated(d@).drop_last()),
    }
}

/// The text firmware answered, as an owned string
fn text_of(text: Option<&[u16]>) -> (r: Result<UefiString>)
    requires
        text matches Some(d) ==> has_nul(d@),
    ensures
        text_answered(text, r),
{
    match text {
        Some(d) => Ok(UefiString::from_ptr(d)),
        None => Err(UefiError::new(EfiStatus::out_of_resources())),
    }
}

/// The text firmware answered, as a Rust string
fn lossy_of(text: Result<UefiString>) -> (r: Result<String>)
    requires
        text matches Ok(s) ==> s.wf(),
    ensures
        match text {
            Ok(s) => r matches Ok(t) && t@ == decode_utf16_lossy(s@.drop_last()),
            Err(e) => r == Err::<String, UefiError>(e),
        },
{
    match text {
        Ok(s) => Ok(s.as_uefi_str().to_string_lossy()),
        Err(e) => Err(e),
    }
}

/// The Device Path Utilities protocol, as read from firmware
#[derive(Debug, Clone, Copy)]
pub struct DevicePathUtil {
    pub raw: RawDevicePathUtil,
}

impl DevicePathUtil {
    /// [DevicePath] size, in bytes, NOT including the End Of Path node, from
    /// the size firmware's `GetDevicePathSize` answered, which includes it
    pub fn get_device_path_size(&self, size: usize) -> (r: usize)
        requires
            self.raw.get_device_path_size is Some,
            size >= NODE_HEADER_SIZE,
        ensures
            r == size - NODE_HEADER_SIZE,
    {
        size - NODE_HEADER_SIZE
    }

    /// The copy of a path firmware's `DuplicateDevicePath` answered with
    /// the address `ret`: `OUT_OF_RESOURCES` where it is null
    pub fn duplicate(&self, ret: usize) -> (r: Result<DevicePath>)
        requires
            self.raw.duplicate_device_path is Some,
        ensures
            ret == 0 ==> r == Err::<DevicePath, UefiError>(error_of(EfiStatus::spec_out_of_resources())),
            ret != 0 ==> (r matches Ok(p) && p.spec_addr() == ret),
    {
        if ret == 0 {
            return Err(UefiError::new(EfiStatus::out_of_resources()));
        }
        Ok(DevicePath::new(ret))
    }

    /// The path firmware's `AppendDeviceNode` answered with the address
    /// `ret`, which is never null
    pub fn append(&self, ret: usize) -> (r: DevicePath)
        requires
            self.raw.append_device_node is Some,
            ret != 0,
        ensures
            r.spec_addr() == ret,
    {
        DevicePath::new(ret)
    }
}

/// The Device Path Display protocol, as read from firmware
#[derive(Debug, Clone, Copy)]
pub struct DevicePathToText {
    pub raw: RawDevicePathToText,
}

impl DevicePathToText {
    /// Returns an owned [UefiString] of a node, a component of a
    /// [DevicePath], from the text firmware's `ConvertDeviceNodeToText`
    /// answered, `None` for null
    ///
    /// With the path `PciRoot(0x0)/Pci(0x1F,0x2)/Sata(0x0,0xFFFF,0x0)`,
    /// this would return `PciRoot(0x0)`.
    ///
    /// # Errors
    ///
    /// - `OUT_OF_RESOURCES` if memory allocation failed
    pub fn convert_device_node_to_text(&self, text: Option<&[u16]>) -> (r: Result<UefiString>)
        requires
            self.raw.convert_device_node_to_text is Some,
            text matches Some(d) ==> has_nul(d@),
        ensures
            text_answered(text, r),
    {
        text_of(text)
    }

    /// Returns an owned [UefiString] of a path, from the text firmware's
    /// `ConvertDevicePathToText` answered, `None` for null
    ///
    /// # Errors
    ///
    /// - `OUT_OF_RESOURCES` if memory allocation failed
    pub fn convert_device_path_to_text(&self, text: Option<&[u16]>) -> (r: Result<UefiString>)
        requires
            self.raw.convert_device_path_to_text is Some,
            text matches Some(d) ==> has_nul(d@),
        ensures
            text_answered(text, r),
    {
        text_of(text)
    }
}

impl DevicePath {
    /// Get this DevicePath as a [`UefiString`] using [`DevicePathToText`]:
    /// `DEVICE_ERROR` once boot services are gone, the error finding the
    /// protocol gave, or what the conversion answered
    pub fn to_uefi_string(
        &self,
        boot: bool,
        protocol: Result<DevicePathToText>,
        text: Option<&[u16]>,
    ) -> (r: Result<UefiString>)
        requires
            protocol matches Ok(p) ==> p.raw.convert_device_path_to_text is Some,
            text matches Some(d) ==> has_nul(d@),
        ensures
            !boot ==> r == Err::<UefiString, UefiError>(error_of(EfiStatus::spec_device_error())),
            boot ==> match protocol {
                Err(e) => r == Err::<UefiString, UefiError>(e),
                Ok(_) => text_answered(text, r),
            },
    {
        if !boot {
            return Err(UefiError::new(EfiStatus::device_error()));
        }
        match protocol {
            Err(e) => Err(e),
            Ok(p) => p.convert_device_path_to_text(text),
        }
    }

    /// Get this DevicePath as a [`String`] using [`DevicePathToText`], each
    /// unpaired surrogate replaced by U+FFFD
    pub fn to_string(
        &self,
        boot: bool,
        protocol: Result<DevicePathToText>,
        text: Option<&[u16]>,
    ) -> (r: Result<String>)
        requires
            protocol matches Ok(p) ==> p.raw.convert_device_path_to_text is Some,
            text matches Some(d) ==> has_nul(d@),
        ensures
            !boot ==> r == Err::<String, UefiError>(error_of(EfiStatus::spec_device_error())),
            boot ==> match protocol {
                Err(e) => r == Err::<String, UefiError>(e),
                Ok(_) => lossy_answered(text, r),
            },
    {
        lossy_of(self.to_uefi_string(boot, protocol, text))
    }
}

impl Entity for DevicePath {
    open spec fn spec_guid() -> Seq<u8> {
        crate::proto::swap_fields(seq![0x09u8, 0x57, 0x6E, 0x91, 0x6D, 0x3F, 0x11, 0xD2, 0x8E, 0x39, 0x00, 0xA0, 0xC9, 0x69, 0x72, 0x3B])
    }

    open spec fn spec_name() -> Seq<char> {
        "DevicePath"@
    }

    fn guid() -> (r: Guid) {
        Guid::from_bytes([0x09u8, 0x57, 0x6E, 0x91, 0x6D, 0x3F, 0x11, 0xD2, 0x8E, 0x39, 0x00, 0xA0, 0xC9, 0x69, 0x72, 0x3B])
    }

    fn name() -> (r: &'static str) {
        "DevicePath"
    }
}

impl Entity for DevicePathUtil {
    open spec fn spec_guid() -> Seq<u8> {
        crate::proto::swap_fields(seq![0x03u8, 0x79, 0xBE, 0x4E, 0xD7, 0x06, 0x43, 0x7D, 0xB0, 0x37, 0xED, 0xB8, 0x2F, 0xB7, 0x72, 0xA4])
    }

    open spec fn spec_name() -> Seq<char> {
        "DevicePathUtil"@
    }

    fn guid() -> (r: Guid) {
        Guid::from_bytes([0x03u8, 0x79, 0xBE, 0x4E, 0xD7, 0x06, 0x43, 0x7D, 0xB0, 0x37, 0xED, 0xB8, 0x2F, 0xB7, 0x72, 0xA4])
    }

    fn name() -> (r: &'static str) {
        "DevicePathUtil"
    }
}

impl Entity for DevicePathToText {
    open spec fn spec_guid() -> Seq<u8> {
        crate::proto::swap_fields(seq![0x8Bu8, 0x84, 0x3E, 0x20, 0x81, 0x32, 0x48, 0x52, 0x90, 0xCC, 0x55, 0x1A, 0x4E, 0x4A, 0x7F, 0x1C])
    }

    open spec fn spec_name() -> Seq<char> {
        "DevicePathToText"@
    }

    fn guid() -> (r: Guid) {
        Guid::from_bytes([0x8Bu8, 0x84, 0x3E, 0x20, 0x81, 0x32, 0x48, 0x52, 0x90, 0xCC, 0x55, 0x1A, 0x4E, 0x4A, 0x7F, 0x1C])
    }

    fn name() -> (r: &'static str) {
        "DevicePathToText"
    }
}

} // verus!
