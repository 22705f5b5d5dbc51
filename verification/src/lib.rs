//! Verified core of a pair of host add-ins: value cells, UTF-16 text
//! conversion, method and property tables, call dispatch and error capture.

pub mod buffer;
pub mod error;
pub mod instant;
pub mod registry;
pub mod slot;
pub mod utf16;
pub mod utils;
pub mod value;
