//! UEFI Platform Initialization protocols
pub mod security;
