//! The MFT record stream: layout, validation and decoding of records.

pub mod attributes;
pub mod decode;
pub mod fixup;
pub mod layout;
pub mod record;
pub mod stream;
