//! File characteristics: one value type for the metadata that a filesystem
//! reports of an entry, with kind flags, classification predicates and a
//! staleness test for cached data.

pub mod kind;
pub mod laws;
pub mod time;
pub mod meta;
pub mod cha;

pub use cha::Cha;
pub use kind::ChaKind;
pub use time::Timestamp;
pub use meta::{FileKind, Meta, Native, Platform, PosixMeta};
