//! UEFI Media protocols
//!
//! Files live in firmware; this module holds what is read from them, as
//! plain values, and decides what to hand firmware and what its answers mean.
use vstd::prelude::*;

use crate::error::{error_of, EfiStatus, Result, UefiError};
use crate::proto::{time_of, Entity, Guid, Time, TIME_SIZE};
use crate::string::{decode_utf16_lossy, encode_str, encode_utf16, utf16_to_string_lossy};
use crate::util::{le_u16, le_u64, read_u16, read_u64};

verus! {

/// Raw UEFI LoadFile2 protocol: its one service, as the address it holds
#[derive(Debug, Clone, Copy, PartialEq, Eq, Structural)]
pub struct RawLoadFile2 {
    pub load_file: Option<usize>,
}

impl RawLoadFile2 {
    /// Create a new instance of this protocol, served by `load_file`
    pub fn create(load_file: usize) -> (r: Self)
        ensures
            r.load_file == Some(load_file),
    {
        Self { load_file: Some(load_file) }
    }
}

/// Raw UEFI Simple File System protocol
#[derive(Debug, Clone, Copy, PartialEq, Eq, Structural)]
pub struct RawSimpleFileSystem {
    /// Currently `0x00010000`
    pub revision: u64,
    pub open_volume: Option<usize>,
}

/// Raw UEFI File protocol
#[derive(Debug, Clone, Copy, PartialEq, Eq, Structural)]
pub struct RawFile {
    /// Currently `0x00020000`
    pub revision: u64,
    pub open: Option<usize>,
    pub close: Option<usize>,
}

/// Size in bytes of [`RawFsInfo`], the fixed part of a file information
/// record
pub const FS_INFO_SIZE: usize = 80;

/// The directory attribute of a file
pub const DIRECTORY: u64 = 0x10;

/// Raw file information record, without the file name that follows it
#[derive(Debug, Clone, Copy, PartialEq, Eq, Structural)]
pub struct RawFsInfo {
    /// Size of the record, name included
    pub size: u64,

    /// Size of the file in bytes
    pub file_size: u64,

    /// Size of the file on its device, in bytes
    pub physical_size: u64,

    pub create_time: Time,
    pub last_access_time: Time,
    pub modification_time: Time,

    /// Attribute bits
    pub flags: u64,
}

/// The record stored at the start of `b`
pub open spec fn raw_fs_info_of(b: Seq<u8>) -> RawFsInfo {
    RawFsInfo {
        size: le_u64(b, 0) as u64,
        file_size: le_u64(b, 8) as u64,
        physical_size: le_u64(b, 16) as u64,
        create_time: time_of(b, 24),
        last_access_time: time_of(b, 40),
        modification_time: time_of(b, 56),
        flags: le_u64(b, 72) as u64,
    }
}

/// The `n` little-endian `u16` units stored from `off` in `b`
pub open spec fn le_units(b: Seq<u8>, off: int, n: int) -> Seq<u16> {
    Seq::new(n as nat, |i: int| le_u16(b, off + 2 * i) as u16)
}

/// The name stored after the record in `b`: all its units but the last,
/// which is the nul
pub open spec fn fs_info_name_units(b: Seq<u8>) -> Seq<u16> {
    le_units(b, FS_INFO_SIZE as int, (b.len() - FS_INFO_SIZE) / 2 - 1)
}

/// UEFI file information
///
/// Represents information about an entity on the filesystem
#[derive(Debug)]
pub struct FsInfo {
    info: RawFsInfo,
    name: String,
}

impl FsInfo {
    /// The record
    pub closed spec fn spec_info(&self) -> RawFsInfo {
        self.info
    }

    /// The name
    pub closed spec fn spec_name(&self) -> Seq<char> {
        self.name@
    }

    /// Information `info` about an entity named `name`
    pub fn new(info: RawFsInfo, name: String) -> (r: Self)
        ensures
            r.spec_info() == info,
            r.spec_name() == name@,
    {
        Self { info, name }
    }

    /// Read file information from the bytes of a record: the fixed part,
    /// then the nul terminated UTF-16 name, decoded with each unpaired
    /// surrogate replaced by U+FFFD
    pub fn from_bytes(v: Vec<u8>) -> (r: Result<FsInfo>)
        requires
            v@.len() >= FS_INFO_SIZE + 2,
        ensures
            r is Ok,
            r matches Ok(i) ==> i.spec_info() == raw_fs_info_of(v@) && i.spec_name()
                == decode_utf16_lossy(fs_info_name_units(v@)),
    {
        let info = RawFsInfo {
            size: read_u64(v.as_slice(), 0),
            file_size: read_u64(v.as_slice(), 8),
            physical_size: read_u64(v.as_slice(), 16),
            create_time: Time::from_bytes(v.as_slice(), 24),
            last_access_time: Time::from_bytes(v.as_slice(), 40),
            modification_time: Time::from_bytes(v.as_slice(), 56),
            flags: read_u64(v.as_slice(), 72),
        };
        let name_len: usize = (v.len() - FS_INFO_SIZE) / 2 - 1;
        let mut units: Vec<u16> = Vec::new();
        let mut i: usize = 0;
        while i < name_len
            invariant
                name_len == (v@.len() - FS_INFO_SIZE) / 2 - 1,
                v@.len() == v.len(),
                v.len() <= usize::MAX,
                i <= name_len,
                units@ == le_units(v@, FS_INFO_SIZE as int, i as int),
            decreases name_len - i,
        {
            units.push(read_u16(v.as_slice(), FS_INFO_SIZE + 2 * i));
            i = i + 1;
            assert(units@ =~= le_units(v@, FS_INFO_SIZE as int, i as int));
        }
        let name = utf16_to_string_lossy(units.as_slice());
        Ok(FsInfo::new(info, name))
    }

    /// Is this a directory or not?
    pub fn directory(&self) -> (r: bool)
        ensures
            r == (self.spec_info().flags & DIRECTORY == DIRECTORY),
    {
        (self.info.flags & DIRECTORY) == DIRECTORY
    }

    /// Entity name
    pub fn name(&self) -> (r: &str)
        ensures
            r@ == self.spec_name(),
    {
        self.name.as_str()
    }

    /// Entity filesystem size in bytes
    pub fn size(&self) -> (r: u64)
        ensures
            r == self.spec_info().file_size,
    {
        self.info.file_size
    }

    /// Entity device size in bytes
    pub fn dev_size(&self) -> (r: u64)
        ensures
            r == self.spec_info().physical_size,
    {
        self.info.physical_size
    }

    /// Whether this is the `.` or `..` entry of a directory, which reading
    /// a directory skips
    pub fn is_dot_entry(&self) -> (r: bool)
        ensures
            r == (self.spec_name() == seq!['.'] || self.spec_name() == seq!['.', '.']),
    {
        let n: usize = self.name.as_str().unicode_len();
        if n == 1 {
            let c = self.name.as_str().get_char(0);
            let r = c == '.';
            proof {
                if r {
                    assert(self.spec_name() =~= seq!['.']);
                }
            }
            r
        } else if n == 2 {
            let c0 = self.name.as_str().get_char(0);
            let c1 = self.name.as_str().get_char(1);
            let r = c0 == '.' && c1 == '.';
            proof {
                if r {
                    assert(self.spec_name() =~= seq!['.', '.']);
                }
            }
            r
        } else {
            false
        }
    }
}

/// What opening a file hands firmware: the nul terminated UTF-16 name, the
/// open mode and the attributes
#[derive(Debug)]
pub struct OpenRequest {
    pub name: Vec<u16>,
    pub mode: u64,
    pub attributes: u64,
}

/// The read open mode
pub const MODE_READ: u64 = 0x1;

/// A UEFI file handle, as this library tracks it: whether it was closed
///
/// Firmware faults when a handle is closed twice, so it is closed at most
/// once.
#[derive(Debug)]
pub struct FsHandle {
    closed: bool,
}

impl FsHandle {
    /// Whether the handle was closed
    pub closed spec fn spec_closed(&self) -> bool {
        self.closed
    }

    /// A handle firmware just opened
    pub fn new() -> (r: Self)
        ensures
            !r.spec_closed(),
    {
        FsHandle { closed: false }
    }

    /// Close the handle: whether firmware's `Close` is to be called, which
    /// it is the first time only
    pub fn close(&mut self) -> (r: bool)
        ensures
            r == !old(self).spec_closed(),
            final(self).spec_closed(),
    {
        if self.closed {
            return false;
        }
        self.closed = true;
        true
    }

    /// Whether the entity exists, from what asking for its information
    /// answered: it does when the information came, it does not on
    /// `NOT_FOUND`, any other error is passed on
    pub fn try_exists(info: &Result<FsInfo>) -> (r: Result<bool>)
        ensures
            match info {
                Ok(_) => r == Ok::<bool, UefiError>(true),
                Err(e) => if e.spec_status() == EfiStatus::spec_not_found() {
                    r == Ok::<bool, UefiError>(false)
                } else {
                    r == Err::<bool, UefiError>(*e)
                },
            },
    {
        match info {
            Ok(_) => Ok(true),
            Err(e) => {
                if e.status() == EfiStatus::not_found() {
                    Ok(false)
                } else {
                    Err(*e)
                }
            },
        }
    }

    /// Whether the entity exists; any error counts as not existing
    pub fn entity_exists(info: &Result<FsInfo>) -> (r: bool)
        ensures
            r == (info is Ok),
    {
        match FsHandle::try_exists(info) {
            Ok(b) => b,
            Err(_) => false,
        }
    }

    /// How many bytes reading a whole file takes, from its information:
    /// `INVALID_PARAMETER` for a directory, `DEVICE_ERROR` where the size
    /// does not fit in memory
    pub fn read_to_end(info: &FsInfo) -> (r: Result<usize>)
        ensures
            info.spec_info().flags & DIRECTORY == DIRECTORY ==> r == Err::<usize, UefiError>(error_of(EfiStatus::spec_invalid_parameter())),
            info.spec_info().flags & DIRECTORY != DIRECTORY && info.spec_info().file_size > usize::MAX ==> r == Err::<usize, UefiError>(error_of(EfiStatus::spec_device_error())),
            info.spec_info().flags & DIRECTORY != DIRECTORY && info.spec_info().file_size <= usize::MAX ==> r == Ok::<usize, UefiError>(info.spec_info().file_size as usize),
    {
        if info.directory() {
            return Err(UefiError::new(EfiStatus::invalid_parameter()));
        }
        let size: u64 = info.size();
        if size > usize::MAX as u64 {
            return Err(UefiError::new(EfiStatus::device_error()));
        }
        Ok(size as usize)
    }

    /// Whether reading into a buffer may go ahead: it may not for a
    /// directory, which gives `INVALID_PARAMETER`
    pub fn read(info: &FsInfo) -> (r: Result<()>)
        ensures
            (r is Ok) == (info.spec_info().flags & DIRECTORY != DIRECTORY),
            r is Err ==> r == Err::<(), UefiError>(error_of(EfiStatus::spec_invalid_parameter())),
    {
        if info.directory() {
            return Err(UefiError::new(EfiStatus::invalid_parameter()));
        }
        Ok(())
    }

    /// Whether reading a directory may go ahead: it may only for a
    /// directory, anything else gives `INVALID_PARAMETER`
    pub fn read_dir(info: &FsInfo) -> (r: Result<()>)
        ensures
            (r is Ok) == (info.spec_info().flags & DIRECTORY == DIRECTORY),
            r is Err ==> r == Err::<(), UefiError>(error_of(EfiStatus::spec_invalid_parameter())),
    {
        if !info.directory() {
            return Err(UefiError::new(EfiStatus::invalid_parameter()));
        }
        Ok(())
    }

    /// What opening `name` relative to this handle hands firmware: the name
    /// as nul terminated UTF-16, read mode, no attributes
    ///
    /// Remember that UEFI paths use `\`, not `/`
    pub fn open(name: &str) -> (r: OpenRequest)
        ensures
            r.name@ == encode_utf16(name@).push(0),
            r.mode == MODE_READ,
            r.attributes == 0,
    {
        let mut units = encode_str(name);
        units.push(0);
        OpenRequest { name: units, mode: MODE_READ, attributes: 0 }
    }
}

/// One step of reading a directory, from what the last read answered
#[derive(Debug)]
pub enum DirStep {
    /// The read failed; the error is handed out
    Error(UefiError),

    /// The directory is exhausted; its position is to be reset
    End,

    /// The `.` or `..` entry, which is skipped: read again
    Skip,

    /// An entry to hand out
    Entry(FsInfo),
}

/// Reading the entries of a directory: whether the end was reached, after
/// which nothing more is read
#[derive(Debug)]
pub struct DirReader {
    done: bool,
}

impl DirReader {
    /// Whether the end was reached
    pub closed spec fn spec_done(&self) -> bool {
        self.done
    }

    /// A reader at the start of the directory
    pub fn new() -> (r: Self)
        ensures
            !r.spec_done(),
    {
        DirReader { done: false }
    }

    /// Whether the end was reached, so that reading is over
    #[verifier::when_used_as_spec(spec_done)]
    pub fn done(&self) -> (r: bool)
        ensures
            r == self.spec_done(),
    {
        self.done
    }

    /// The step after a read answered `read`, the number of bytes put in
    /// `buf`: its error, the end when nothing was read, the dot entries
    /// skipped, any other entry handed out. Reaching the end ends reading.
    pub fn step(&mut self, read: Result<usize>, buf: Vec<u8>) -> (r: DirStep)
        requires
            !old(self).spec_done(),
            read matches Ok(n) && n != 0 ==> buf@.len() >= FS_INFO_SIZE + 2,
        ensures
            final(self).spec_done() == (read == Ok::<usize, UefiError>(0)),
            match read {
                Err(e) => r matches DirStep::Error(x) && x == e,
                Ok(n) => if n == 0 {
                    r is End
                } else {
                    let name = decode_utf16_lossy(fs_info_name_units(buf@));
                    if name == seq!['.'] || name == seq!['.', '.'] {
                        r is Skip
                    } else {
                        (r matches DirStep::Entry(i) && i.spec_info() == raw_fs_info_of(buf@) && i.spec_name() == name)
                    }
                },
            },
    {
        let n = match read {
            Err(e) => return DirStep::Error(e),
            Ok(n) => n,
        };
        if n == 0 {
            self.done = true;
            return DirStep::End;
        }
        match FsInfo::from_bytes(buf) {
            Ok(info) => {
                if info.is_dot_entry() {
                    DirStep::Skip
                } else {
                    DirStep::Entry(info)
                }
            },
            Err(e) => DirStep::Error(e),
        }
    }

    /// What reading hands out once the position was reset at the end: the
    /// error resetting gave, or nothing
    pub fn rewound(set: Result<()>) -> (r: Option<Result<FsInfo>>)
        ensures
            match set {
                Ok(()) => r is None,
                Err(e) => r matches Some(Err(x)) && x == e,
            },
    {
        match set {
            Ok(()) => None,
            Err(e) => Some(Err(e)),
        }
    }
}

impl FsHandle {
    /// What firmware answered the first `GetInfo` call, made with no buffer:
    /// the size of buffer the information needs. Anything other than
    /// `BUFFER_TOO_SMALL` is an error, and so is a size of zero
    pub fn info_size(status: EfiStatus, size: usize) -> (r: Result<usize>)
        ensures
            status != EfiStatus::spec_buffer_too_small() ==> r == Err::<usize, UefiError>(error_of(status)),
            status == EfiStatus::spec_buffer_too_small() && size == 0 ==> r == Err::<usize, UefiError>(error_of(EfiStatus::spec_invalid_parameter())),
            status == EfiStatus::spec_buffer_too_small() && size != 0 ==> r == Ok::<usize, UefiError>(size),
    {
        if status != EfiStatus::buffer_too_small() {
            return Err(UefiError::new_status(status));
        }
        if size == 0 {
            return Err(UefiError::new(EfiStatus::invalid_parameter()));
        }
        Ok(size)
    }

    /// What firmware answered the second `GetInfo` call, with `size` bytes
    /// written to `buf`: the information on success
    pub fn info(status: EfiStatus, buf: Vec<u8>) -> (r: Result<FsInfo>)
        requires
            status.0 == 0 ==> buf@.len() >= FS_INFO_SIZE + 2,
        ensures
            status.0 != 0 ==> r == Err::<FsInfo, UefiError>(error_of(status)),
            status.0 == 0 ==> (r matches Ok(i) && i.spec_info() == raw_fs_info_of(buf@)
                && i.spec_name() == decode_utf16_lossy(fs_info_name_units(buf@))),
    {
        if status.is_success() {
            FsInfo::from_bytes(buf)
        } else {
            Err(UefiError::new(status))
        }
    }

    /// What firmware answered a `Read` call made with no buffer: zero bytes
    /// left at the end, or the size a buffer needs on `BUFFER_TOO_SMALL`;
    /// anything else is an error, a success that left a size included
    pub fn read_impl_size(status: EfiStatus, size: usize) -> (r: Result<usize>)
        ensures
            status.0 == 0 && size == 0 ==> r == Ok::<usize, UefiError>(0),
            status == EfiStatus::spec_buffer_too_small() ==> r == Ok::<usize, UefiError>(size),
            !(status.0 == 0 && size == 0) && status != EfiStatus::spec_buffer_too_small() ==> r == Err::<usize, UefiError>(error_of(status)),
    {
        if size == 0 && status.is_success() {
            Ok(size)
        } else if status == EfiStatus::buffer_too_small() {
            Ok(size)
        } else {
            Err(UefiError::new_status(status))
        }
    }

    /// What a whole read answers, from the size the first call asked for and
    /// what filling a buffer of that size answered: that size once filled
    pub fn read_impl(size: usize, written: Result<usize>) -> (r: Result<usize>)
        ensures
            match written {
                Ok(_) => r == Ok::<usize, UefiError>(size),
                Err(e) => r == Err::<usize, UefiError>(e),
            },
    {
        match written {
            Ok(_) => Ok(size),
            Err(e) => Err(e),
        }
    }

    /// What firmware answered a `Read` call into a buffer: the number of
    /// bytes it wrote, on success
    pub fn read_impl_write(status: EfiStatus, size: usize) -> (r: Result<usize>)
        ensures
            r == crate::table::boot::value_result(status, size),
    {
        if status.is_success() {
            Ok(size)
        } else {
            Err(UefiError::new(status))
        }
    }

    /// What firmware answered a `GetPosition` call: the position on success
    pub fn position(status: EfiStatus, pos: u64) -> (r: Result<u64>)
        ensures
            r == crate::table::boot::value_result(status, pos),
    {
        if status.is_success() {
            Ok(pos)
        } else {
            Err(status.into_error())
        }
    }

    /// What firmware answered an `Open` or `OpenVolume` call: the new
    /// handle on success, which firmware never leaves null
    pub fn open_volume(status: EfiStatus, out: usize) -> (r: Result<usize>)
        requires
            status.0 == 0 ==> out != 0,
        ensures
            r == crate::table::boot::value_result(status, out),
    {
        if status.is_success() {
            Ok(out)
        } else {
            Err(UefiError::new(status))
        }
    }
}

/// The load file protocol, as read from firmware
#[derive(Debug, Clone, Copy)]
pub struct LoadFile2 {
    pub raw: RawLoadFile2,
}

/// UEFI Simple filesystem protocol, as read from firmware: it gives
/// [`FsHandle`] based access to a device
///
/// UEFI supports the `FAT{12,16,32}` filesystems out of the box
#[derive(Debug, Clone, Copy)]
pub struct SimpleFileSystem {
    pub raw: RawSimpleFileSystem,
}

impl Entity for LoadFile2 {
    open spec fn spec_guid() -> Seq<u8> {
        crate::proto::swap_fields(seq![0x40u8, 0x06, 0xC0, 0xC1, 0xFC, 0xB3, 0x40, 0x3E, 0x99, 0x6D, 0x4A, 0x6C, 0x87, 0x24, 0xE0, 0x6D])
    }

    open spec fn spec_name() -> Seq<char> {
        "LoadFile2"@
    }

    fn guid() -> (r: Guid) {
        Guid::from_bytes([0x40u8, 0x06, 0xC0, 0xC1, 0xFC, 0xB3, 0x40, 0x3E, 0x99, 0x6D, 0x4A, 0x6C, 0x87, 0x24, 0xE0, 0x6D])
    }

    fn name() -> (r: &'static str) {
        "LoadFile2"
    }
}

impl Entity for SimpleFileSystem {
    open spec fn spec_guid() -> Seq<u8> {
        crate::proto::swap_fields(seq![0x96u8, 0x4E, 0x5B, 0x22, 0x64, 0x59, 0x11, 0xD2, 0x8E, 0x39, 0x00, 0xA0, 0xC9, 0x69, 0x72, 0x3B])
    }

    open spec fn spec_name() -> Seq<char> {
        "SimpleFileSystem"@
    }

    fn guid() -> (r: Guid) {
        Guid::from_bytes([0x96u8, 0x4E, 0x5B, 0x22, 0x64, 0x59, 0x11, 0xD2, 0x8E, 0x39, 0x00, 0xA0, 0xC9, 0x69, 0x72, 0x3B])
    }

    fn name() -> (r: &'static str) {
        "SimpleFileSystem"
    }
}

impl Entity for FsInfo {
    open spec fn spec_guid() -> Seq<u8> {
        crate::proto::swap_fields(seq![0x09u8, 0x57, 0x6E, 0x92, 0x6D, 0x3F, 0x11, 0xD2, 0x8E, 0x39, 0x00, 0xA0, 0xC9, 0x69, 0x72, 0x3B])
    }

    open spec fn spec_name() -> Seq<char> {
        "FsInfo"@
    }

    fn guid() -> (r: Guid) {
        Guid::from_bytes([0x09u8, 0x57, 0x6E, 0x92, 0x6D, 0x3F, 0x11, 0xD2, 0x8E, 0x39, 0x00, 0xA0, 0xC9, 0x69, 0x72, 0x3B])
    }

    fn name() -> (r: &'static str) {
        "FsInfo"
    }
}

} // verus!
