//! Vendor specific UEFI protocols
pub mod linux;
