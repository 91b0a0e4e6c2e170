//! Linux Specific UEFI Protocols
use vstd::prelude::*;

use crate::proto::device_path::{end_node_bytes, node_bytes, DevicePath, RawDevicePath, RawDevicePathSubType, RawDevicePathType};
use crate::proto::{Entity, Guid};
use crate::util::u16_bytes;

verus! {

/// Size in bytes of a vendor media node with no vendor data: its header and
/// the vendor's GUID
pub const VENDOR_NODE_SIZE: u16 = 20;

/// The linux specific EFI_INITRD_MEDIA_GUID protocol
///
/// This is a vendor defined media device path, which Linux uses as a marker
/// for the handle whose LoadFile2 protocol loads the initial ram disk: a
/// vendor media node carrying the protocol's GUID, then the end node.
#[derive(Debug, Clone, Copy)]
pub struct RawInitrdMediaGuid {
    pub vendor: RawDevicePath,
    pub vendor_guid: Guid,
    pub end: RawDevicePath,
}

/// The bytes of the path, as it is laid out in memory, unaligned
pub open spec fn initrd_media_bytes(p: RawInitrdMediaGuid) -> Seq<u8> {
    node_bytes(p.vendor) + p.vendor_guid@ + node_bytes(p.end)
}

impl RawInitrdMediaGuid {
    /// Create a new instance of this protocol
    pub fn create() -> (r: Self)
        ensures
            r.vendor.ty.0 == 0x04,
            r.vendor.sub_ty.0 == 0x03,
            r.vendor.len@ == u16_bytes(VENDOR_NODE_SIZE as int),
            r.vendor_guid@ == InitrdMediaGuid::spec_guid(),
            node_bytes(r.end) == end_node_bytes(),
    {
        Self {
            vendor: RawDevicePath::create(
                RawDevicePathType::media().0,
                RawDevicePathSubType::media_vendor().0,
                VENDOR_NODE_SIZE,
            ),
            vendor_guid: InitrdMediaGuid::guid(),
            end: RawDevicePath::end(),
        }
    }

    /// The bytes of this path
    pub fn to_bytes(&self) -> (r: Vec<u8>)
        ensures
            r@ == initrd_media_bytes(*self),
    {
        let mut out: Vec<u8> = Vec::new();
        let v = self.vendor.to_bytes();
        let g = self.vendor_guid.to_bytes();
        let e = self.end.to_bytes();
        let mut i: usize = 0;
        while i < 4
            invariant
                i <= 4,
                out@ == v@.subrange(0, i as int),
            decreases 4 - i,
        {
            out.push(v[i]);
            i = i + 1;
            assert(out@ =~= v@.subrange(0, i as int));
        }
        assert(v@.subrange(0, 4) =~= v@);
        let ghost head = out@;
        i = 0;
        while i < 16
            invariant
                i <= 16,
                g@.len() == 16,
                out@ == head + g@.subrange(0, i as int),
            decreases 16 - i,
        {
            out.push(g[i]);
            i = i + 1;
            assert(out@ =~= head + g@.subrange(0, i as int));
        }
        assert(g@.subrange(0, 16) =~= g@);
        let ghost mid = out@;
        i = 0;
        while i < 4
            invariant
                i <= 4,
                out@ == mid + e@.subrange(0, i as int),
            decreases 4 - i,
        {
            out.push(e[i]);
            i = i + 1;
            assert(out@ =~= mid + e@.subrange(0, i as int));
        }
        assert(e@.subrange(0, 4) =~= e@);
        out
    }
}

/// Device Path defined by Linux identifying a handle that supports the
/// LoadFile2 protocol for loading the initial ram disk
#[derive(Debug, Clone, Copy)]
pub struct InitrdMediaGuid {
    pub path: DevicePath,
}

impl InitrdMediaGuid {
    /// This protocol as the device path it is
    pub fn as_device_path(&self) -> (r: DevicePath)
        ensures
            r == self.path,
    {
        self.path
    }
}

impl Entity for InitrdMediaGuid {
    open spec fn spec_guid() -> Seq<u8> {
        crate::proto::swap_fields(seq![0x55u8, 0x68, 0xE4, 0x27, 0x68, 0xFC, 0x4F, 0x3D, 0xAC, 0x74, 0xCA, 0x55, 0x52, 0x31, 0xCC, 0x68])
    }

    open spec fn spec_name() -> Seq<char> {
        "InitrdMediaGuid"@
    }

    fn guid() -> (r: Guid) {
        Guid::from_bytes([0x55u8, 0x68, 0xE4, 0x27, 0x68, 0xFC, 0x4F, 0x3D, 0xAC, 0x74, 0xCA, 0x55, 0x52, 0x31, 0xCC, 0x68])
    }

    fn name() -> (r: &'static str) {
        "InitrdMediaGuid"
    }
}

} // verus!
