//! The fields of an ELF file header as mathematical values, and the bytes
//! that they serialize to.

use crate::big_endian::{be_bytes, zero_bytes};
use vstd::prelude::*;

verus! {

/// The four bytes that open every ELF file: 0x7f, then "ELF" in ASCII.
pub const MAGIC_BYTES: [u8; 4] = [0x7f, 0x45, 0x4c, 0x46];

/// Address class of a 32-bit target.
pub const CLASS_32: u8 = 1;

/// Address class of a 64-bit target.
pub const CLASS_64: u8 = 2;

/// Version of the identification block; the format has only this one.
pub const IDENT_VERSION: u8 = 1;

/// Target operating system ABI written into every header (Linux).
pub const OS_ABI: u8 = 0x03;

/// ABI version written into every header.
pub const ABI_VERSION: u8 = 0;

/// Number of reserved bytes that close the identification block.
pub const PADDING_LEN: usize = 7;

/// Size in bytes of the header of a 32-bit file.
pub const HEADER_SIZE_32: u16 = 52;

/// Size in bytes of the header of a 64-bit file.
pub const HEADER_SIZE_64: u16 = 64;

/// Byte order that a header declares for the file's data.
#[derive(Clone, Copy, Debug, PartialEq, Eq, Structural)]
pub enum Endianness {
    Little,
    Big,
}

impl Endianness {
    /// The value of the data-encoding byte that declares this byte order.
    pub open spec fn spec_code(self) -> u8 {
        match self {
            Endianness::Little => 1,
            Endianness::Big => 2,
        }
    }

    /// The value of the data-encoding byte that declares this byte order.
    #[verifier::when_used_as_spec(spec_code)]
    pub fn code(self) -> (code: u8)
        ensures
            code == self.spec_code(),
    {
        match self {
            Endianness::Little => 1,
            Endianness::Big => 2,
        }
    }
}

/// Whether `class` is one of the two address classes of the format.
pub open spec fn valid_class(class: u8) -> bool {
    class == CLASS_32 || class == CLASS_64
}

/// Tells whether `class` is one of the two address classes of the format.
pub fn is_valid_class(class: u8) -> (valid: bool)
    ensures
        valid == valid_class(class),
{
    class == CLASS_32 || class == CLASS_64
}

/// Width in bytes of an address or file offset in a header of `class`.
pub open spec fn address_width(class: u8) -> nat {
    if class == CLASS_64 {
        8
    } else {
        4
    }
}

/// Size in bytes of a header of `class`: the 16-byte identification block,
/// 8 bytes of type, machine and version, three addresses, and 16 bytes of
/// flags, sizes and counts. That is 64 for the 64-bit class and 52 for the
/// 32-bit class.
pub open spec fn header_len(class: u8) -> nat {
    40 + 3 * address_width(class)
}

/// The mathematical content of a header: one value per field, in file order.
pub struct HeaderFields {
    pub magic: Seq<u8>,
    pub class: u8,
    pub byte_order: Endianness,
    pub ident_version: u8,
    pub os_abi: u8,
    pub abi_version: u8,
    pub padding: Seq<u8>,
    pub file_type: nat,
    pub machine: nat,
    pub version: nat,
    pub entry: nat,
    pub ph_offset: nat,
    pub sh_offset: nat,
    pub flags: nat,
    pub header_size: nat,
    pub ph_entry_size: nat,
    pub ph_count: nat,
    pub sh_entry_size: nat,
    pub sh_count: nat,
    pub sh_name_index: nat,
}

impl HeaderFields {
    /// What holds of every header: the magic bytes and the fixed parts of
    /// the identification block are in place, the class is one of the two,
    /// and the recorded header size is the size of a header of that class.
    pub open spec fn well_formed(self) -> bool {
        &&& self.magic == MAGIC_BYTES@
        &&& valid_class(self.class)
        &&& self.ident_version == IDENT_VERSION
        &&& self.os_abi == OS_ABI
        &&& self.abi_version == ABI_VERSION
        &&& self.padding == zero_bytes(PADDING_LEN as nat)
        &&& self.header_size == header_len(self.class)
    }

    /// The 16-byte identification block: magic, class, data encoding,
    /// version, OS ABI, ABI version, padding.
    pub open spec fn ident(self) -> Seq<u8> {
        self.magic + seq![
            self.class,
            self.byte_order.spec_code(),
            self.ident_version,
            self.os_abi,
            self.abi_version,
        ] + self.padding
    }

    /// The on-disk bytes of the header: the identification block, then the
    /// other fields in file order. Every multi-byte field is written most
    /// significant byte first, whatever byte order the header declares; the
    /// address class alone decides the width of the three address fields,
    /// which keep the low bytes of their values.
    pub open spec fn encoding(self) -> Seq<u8> {
        let width = address_width(self.class);
        self.ident()
            + be_bytes(self.file_type, 2)
            + be_bytes(self.machine, 2)
            + be_bytes(self.version, 4)
            + be_bytes(self.entry, width)
            + be_bytes(self.ph_offset, width)
            + be_bytes(self.sh_offset, width)
            + be_bytes(self.flags, 4)
            + be_bytes(self.header_size, 2)
            + be_bytes(self.ph_entry_size, 2)
            + be_bytes(self.ph_count, 2)
            + be_bytes(self.sh_entry_size, 2)
            + be_bytes(self.sh_count, 2)
            + be_bytes(self.sh_name_index, 2)
    }
}

/// The fields of a freshly constructed header of `class` that declares
/// `byte_order`: the identification block filled in, the header size set to
/// the size for the class, and every other field zero.
pub open spec fn initial_fields(class: u8, byte_order: Endianness) -> HeaderFields {
    HeaderFields {
        magic: MAGIC_BYTES@,
        class,
        byte_order,
        ident_version: IDENT_VERSION,
        os_abi: OS_ABI,
        abi_version: ABI_VERSION,
        padding: zero_bytes(PADDING_LEN as nat),
        file_type: 0,
        machine: 0,
        version: 0,
        entry: 0,
        ph_offset: 0,
        sh_offset: 0,
        flags: 0,
        header_size: header_len(class),
        ph_entry_size: 0,
        ph_count: 0,
        sh_entry_size: 0,
        sh_count: 0,
        sh_name_index: 0,
    }
}

} // verus!
