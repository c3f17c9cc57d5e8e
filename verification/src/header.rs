//! The ELF file header as an executable type: how it is constructed and how
//! it is serialized.

use crate::big_endian::{push_be, zero_bytes};
use crate::fields::{
    initial_fields, valid_class, Endianness, HeaderFields, ABI_VERSION, CLASS_32, CLASS_64,
    HEADER_SIZE_32, HEADER_SIZE_64, IDENT_VERSION, MAGIC_BYTES, OS_ABI, PADDING_LEN,
};
use vstd::prelude::*;

verus! {

/// The header of an ELF file.
///
/// A header is built by [`ElfHeader::new`] and never changes afterwards, so
/// its fields always satisfy [`HeaderFields::well_formed`].
pub struct ElfHeader {
    magic: [u8; 4],
    class: u8,
    byte_order: Endianness,
    ident_version: u8,
    os_abi: u8,
    abi_version: u8,
    padding: [u8; 7],
    file_type: u16,
    machine: u16,
    version: u32,
    entry: u64,
    ph_offset: u64,
    sh_offset: u64,
    flags: u32,
    header_size: u16,
    ph_entry_size: u16,
    ph_count: u16,
    sh_entry_size: u16,
    sh_count: u16,
    sh_name_index: u16,
}

impl View for ElfHeader {
    type V = HeaderFields;

    closed spec fn view(&self) -> HeaderFields {
        HeaderFields {
            magic: self.magic@,
            class: self.class,
            byte_order: self.byte_order,
            ident_version: self.ident_version,
            os_abi: self.os_abi,
            abi_version: self.abi_version,
            padding: self.padding@,
            file_type: self.file_type as nat,
            machine: self.machine as nat,
            version: self.version as nat,
            entry: self.entry as nat,
            ph_offset: self.ph_offset as nat,
            sh_offset: self.sh_offset as nat,
            flags: self.flags as nat,
            header_size: self.header_size as nat,
            ph_entry_size: self.ph_entry_size as nat,
            ph_count: self.ph_count as nat,
            sh_entry_size: self.sh_entry_size as nat,
            sh_count: self.sh_count as nat,
            sh_name_index: self.sh_name_index as nat,
        }
    }
}

/// Appends `bytes` to `out`.
fn push_all(out: &mut Vec<u8>, bytes: &[u8])
    ensures
        final(out)@ == old(out)@ + bytes@,
{
    let mut i: usize = 0;
    while i < bytes.len()
        invariant
            i <= bytes@.len(),
            out@ == old(out)@ + bytes@.take(i as int),
        decreases bytes@.len() - i,
    {
        out.push(bytes[i]);
        i = i + 1;
        assert(bytes@.take(i as int) == bytes@.take(i - 1).push(bytes@[i - 1]));
    }
    assert(bytes@.take(i as int) == bytes@);
}

impl ElfHeader {
    #[verifier::type_invariant]
    spec fn fields_well_formed(self) -> bool {
        self@.well_formed()
    }

    /// Builds the header of a file of address class `ident_class` that
    /// declares byte order `endianness`.
    ///
    /// The class must be one of the two that the format has, 1 for 32-bit
    /// and 2 for 64-bit: see [`crate::fields::is_valid_class`]. The header
    /// has its identification block filled in and records the header size of
    /// its class; every other field is zero.
    pub fn new(ident_class: u8, endianness: Endianness) -> (header: Self)
        requires
            valid_class(ident_class),
        ensures
            header@ == initial_fields(ident_class, endianness),
            header@.well_formed(),
    {
        let header_size: u16 = if ident_class == CLASS_64 {
            HEADER_SIZE_64
        } else {
            HEADER_SIZE_32
        };
        let padding: [u8; 7] = [0; 7];
        assert(padding@ == zero_bytes(PADDING_LEN as nat));
        ElfHeader {
            magic: MAGIC_BYTES,
            class: ident_class,
            byte_order: endianness,
            ident_version: IDENT_VERSION,
            os_abi: OS_ABI,
            abi_version: ABI_VERSION,
            padding,
            file_type: 0,
            machine: 0,
            version: 0,
            entry: 0,
            ph_offset: 0,
            sh_offset: 0,
            flags: 0,
            header_size,
            ph_entry_size: 0,
            ph_count: 0,
            sh_entry_size: 0,
            sh_count: 0,
            sh_name_index: 0,
        }
    }

    /// Produces the on-disk bytes of the header: the identification block,
    /// then the remaining fields in file order, the three address fields in
    /// the width of the header's class.
    ///
    /// Multi-byte fields are written most significant byte first, whatever
    /// byte order the header declares. The result starts with the magic bytes
    /// and is as long as the header size that it records.
    pub fn serialize(&self) -> (out: Vec<u8>)
        ensures
            self@.well_formed(),
            out@ == self@.encoding(),
            out@.take(4) == MAGIC_BYTES@,
            out@.len() == self@.header_size,
            self@.class == CLASS_64 ==> out@.len() == 64,
            self@.class == CLASS_32 ==> out@.len() == 52,
    {
        proof {
            use_type_invariant(self);
        }
        let width: usize = if self.class == CLASS_64 {
            8
        } else {
            4
        };
        let mut out: Vec<u8> = Vec::new();
        push_all(&mut out, &self.magic);
        out.push(self.class);
        out.push(self.byte_order.code());
        out.push(self.ident_version);
        out.push(self.os_abi);
        out.push(self.abi_version);
        push_all(&mut out, &self.padding);
        assert(out@ == self@.ident());
        push_be(&mut out, self.file_type as u64, 2);
        push_be(&mut out, self.machine as u64, 2);
        push_be(&mut out, self.version as u64, 4);
        push_be(&mut out, self.entry, width);
        push_be(&mut out, self.ph_offset, width);
        push_be(&mut out, self.sh_offset, width);
        push_be(&mut out, self.flags as u64, 4);
        push_be(&mut out, self.header_size as u64, 2);
        push_be(&mut out, self.ph_entry_size as u64, 2);
        push_be(&mut out, self.ph_count as u64, 2);
        push_be(&mut out, self.sh_entry_size as u64, 2);
        push_be(&mut out, self.sh_count as u64, 2);
        push_be(&mut out, self.sh_name_index as u64, 2);
        out
    }

    /// The magic bytes that open the header.
    pub fn magic(&self) -> (magic: [u8; 4])
        ensures
            magic@ == self@.magic,
    {
        self.magic
    }

    /// The address class: 1 for 32-bit, 2 for 64-bit.
    pub fn class(&self) -> (class: u8)
        ensures
            class == self@.class,
    {
        self.class
    }

    /// The byte order that the header declares.
    pub fn byte_order(&self) -> (byte_order: Endianness)
        ensures
            byte_order == self@.byte_order,
    {
        self.byte_order
    }

    /// The version of the identification block.
    pub fn ident_version(&self) -> (ident_version: u8)
        ensures
            ident_version == self@.ident_version,
    {
        self.ident_version
    }

    /// The target operating system ABI.
    pub fn os_abi(&self) -> (os_abi: u8)
        ensures
            os_abi == self@.os_abi,
    {
        self.os_abi
    }

    /// The version of the target ABI.
    pub fn abi_version(&self) -> (abi_version: u8)
        ensures
            abi_version == self@.abi_version,
    {
        self.abi_version
    }

    /// The reserved bytes that close the identification block.
    pub fn padding(&self) -> (padding: [u8; 7])
        ensures
            padding@ == self@.padding,
    {
        self.padding
    }

    /// The object file type (`e_type`).
    pub fn file_type(&self) -> (file_type: u16)
        ensures
            file_type == self@.file_type,
    {
        self.file_type
    }

    /// The target machine architecture (`e_machine`).
    pub fn machine(&self) -> (machine: u16)
        ensures
            machine == self@.machine,
    {
        self.machine
    }

    /// The object file version (`e_version`).
    pub fn version(&self) -> (version: u32)
        ensures
            version == self@.version,
    {
        self.version
    }

    /// The address of the entry point (`e_entry`).
    pub fn entry(&self) -> (entry: u64)
        ensures
            entry == self@.entry,
    {
        self.entry
    }

    /// The file offset of the program header table (`e_phoff`).
    pub fn ph_offset(&self) -> (ph_offset: u64)
        ensures
            ph_offset == self@.ph_offset,
    {
        self.ph_offset
    }

    /// The file offset of the section header table (`e_shoff`).
    pub fn sh_offset(&self) -> (sh_offset: u64)
        ensures
            sh_offset == self@.sh_offset,
    {
        self.sh_offset
    }

    /// The processor-specific flags (`e_flags`).
    pub fn flags(&self) -> (flags: u32)
        ensures
            flags == self@.flags,
    {
        self.flags
    }

    /// The size of this header in bytes (`e_ehsize`).
    pub fn header_size(&self) -> (header_size: u16)
        ensures
            header_size == self@.header_size,
    {
        self.header_size
    }

    /// The size of one program header table entry (`e_phentsize`).
    pub fn ph_entry_size(&self) -> (ph_entry_size: u16)
        ensures
            ph_entry_size == self@.ph_entry_size,
    {
        self.ph_entry_size
    }

    /// The number of program header table entries (`e_phnum`).
    pub fn ph_count(&self) -> (ph_count: u16)
        ensures
            ph_count == self@.ph_count,
    {
        self.ph_count
    }

    /// The size of one section header table entry (`e_shentsize`).
    pub fn sh_entry_size(&self) -> (sh_entry_size: u16)
        ensures
            sh_entry_size == self@.sh_entry_size,
    {
        self.sh_entry_size
    }

    /// The number of section header table entries (`e_shnum`).
    pub fn sh_count(&self) -> (sh_count: u16)
        ensures
            sh_count == self@.sh_count,
    {
        self.sh_count
    }

    /// The index of the section that holds the section names (`e_shstrndx`).
    pub fn sh_name_index(&self) -> (sh_name_index: u16)
        ensures
            sh_name_index == self@.sh_name_index,
    {
        self.sh_name_index
    }
}

} // verus!
