//! A UEFI support library: status codes, table headers, configuration
//! tables, strings, device paths and protocol data, with the decisions that
//! sit between firmware calls stated and proved.
pub mod table;
pub mod error;
pub mod util;
pub mod proto;
pub mod string;
pub mod logger;
pub mod mem;
pub mod entry;
