//! Construction and byte-exact serialization of minimal ELF file headers.
//!
//! [`header::ElfHeader`] is the header of an ELF file of the 32-bit or the
//! 64-bit address class, and [`header::ElfHeader::serialize`] produces its
//! on-disk bytes. [`fields`] holds the mathematical model of a header and of
//! its serialized form, [`layout`] what is proved about that form, and
//! [`big_endian`] the integer encoding that the serializer is built on.

pub mod big_endian;
pub mod fields;
pub mod header;
pub mod layout;
