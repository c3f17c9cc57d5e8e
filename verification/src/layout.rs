//! Where the fields lie in a serialized header, and what a freshly built
//! header serializes to.

use crate::big_endian::{
    be_bytes, be_value, lemma_be_bytes_of_zero, lemma_be_bytes_two, lemma_be_value_of_be_bytes,
    lemma_narrow_keeps_low_bytes, place_value, zero_bytes,
};
use crate::fields::{
    address_width, initial_fields, valid_class, Endianness, HeaderFields, CLASS_32, CLASS_64,
    MAGIC_BYTES,
};
use vstd::prelude::*;

verus! {

/// Offset of the entry point, the first of the three address fields. The
/// program header offset and the section header offset follow it directly.
pub open spec fn entry_offset() -> nat {
    24
}

/// Offset of the two-byte header size field in a header of `class`.
pub open spec fn header_size_offset(class: u8) -> nat {
    28 + 3 * address_width(class)
}

/// The serialized form of a freshly built header starts with the magic
/// bytes, for both address classes and either declared byte order.
pub proof fn lemma_serialized_magic(class: u8, byte_order: Endianness)
    requires
        valid_class(class),
    ensures
        initial_fields(class, byte_order).encoding().take(4) == MAGIC_BYTES@,
        MAGIC_BYTES@ == seq![0x7fu8, 0x45u8, 0x4cu8, 0x46u8],
{
    let fields = initial_fields(class, byte_order);
    assert(fields.encoding().take(4) =~= MAGIC_BYTES@);
    assert(MAGIC_BYTES@ =~= seq![0x7fu8, 0x45u8, 0x4cu8, 0x46u8]);
}

/// The serialized form of a freshly built header is 64 bytes long for the
/// 64-bit class and 52 bytes long for the 32-bit class.
pub proof fn lemma_serialized_length(class: u8, byte_order: Endianness)
    requires
        valid_class(class),
    ensures
        class == CLASS_64 ==> initial_fields(class, byte_order).encoding().len() == 64,
        class == CLASS_32 ==> initial_fields(class, byte_order).encoding().len() == 52,
{
}

/// The header size field of a freshly built header, as serialized, reads 64
/// for the 64-bit class and 52 for the 32-bit class, and the serialized form
/// has exactly that length.
pub proof fn lemma_serialized_header_size(class: u8, byte_order: Endianness)
    requires
        valid_class(class),
    ensures
        ({
            let bytes = initial_fields(class, byte_order).encoding();
            let offset = header_size_offset(class) as int;
            let field = bytes.subrange(offset, offset + 2);
            let size: nat = if class == CLASS_64 {
                64
            } else {
                52
            };
            &&& field == seq![0u8, size as u8]
            &&& be_value(field) == size
            &&& bytes.len() == size
        }),
{
    let fields = initial_fields(class, byte_order);
    let bytes = fields.encoding();
    let offset: int = header_size_offset(class) as int;
    assert(bytes.subrange(offset, offset + 2) =~= be_bytes(fields.header_size, 2));
    lemma_be_bytes_two(fields.header_size);
    reveal_with_fuel(place_value, 3);
    lemma_be_value_of_be_bytes(fields.header_size, 2);
}

/// In the serialized form of any header, each of the three address fields is
/// its value encoded in the width of the class. That is the tail of the
/// value's eight-byte form: all of it in the 64-bit class, its low four bytes
/// in the 32-bit class, which read back as the value reduced modulo 2^32.
pub proof fn lemma_address_fields_keep_low_bytes(fields: HeaderFields)
    requires
        fields.well_formed(),
    ensures
        ({
            let bytes = fields.encoding();
            let width = address_width(fields.class);
            let at = entry_offset() as int;
            let entry = bytes.subrange(at, at + width);
            let ph_offset = bytes.subrange(at + width, at + 2 * width);
            let sh_offset = bytes.subrange(at + 2 * width, at + 3 * width);
            &&& entry == be_bytes(fields.entry, width)
            &&& entry == be_bytes(fields.entry, 8).skip(8 - width)
            &&& be_value(entry) == fields.entry % place_value(width)
            &&& ph_offset == be_bytes(fields.ph_offset, width)
            &&& ph_offset == be_bytes(fields.ph_offset, 8).skip(8 - width)
            &&& be_value(ph_offset) == fields.ph_offset % place_value(width)
            &&& sh_offset == be_bytes(fields.sh_offset, width)
            &&& sh_offset == be_bytes(fields.sh_offset, 8).skip(8 - width)
            &&& be_value(sh_offset) == fields.sh_offset % place_value(width)
        }),
{
    let bytes = fields.encoding();
    let width = address_width(fields.class);
    let at: int = entry_offset() as int;
    assert(bytes.subrange(at, at + width) =~= be_bytes(fields.entry, width));
    assert(bytes.subrange(at + width, at + 2 * width) =~= be_bytes(fields.ph_offset, width));
    assert(bytes.subrange(at + 2 * width, at + 3 * width) =~= be_bytes(fields.sh_offset, width));
    lemma_narrow_keeps_low_bytes(fields.entry, 8, width);
    lemma_narrow_keeps_low_bytes(fields.ph_offset, 8, width);
    lemma_narrow_keeps_low_bytes(fields.sh_offset, 8, width);
    lemma_be_value_of_be_bytes(fields.entry, width);
    lemma_be_value_of_be_bytes(fields.ph_offset, width);
    lemma_be_value_of_be_bytes(fields.sh_offset, width);
}

/// Every byte of the three address fields of a freshly built header, as
/// serialized, is zero, in both address classes.
pub proof fn lemma_serialized_addresses_zero(class: u8, byte_order: Endianness)
    requires
        valid_class(class),
    ensures
        ({
            let bytes = initial_fields(class, byte_order).encoding();
            let width = address_width(class);
            let at = entry_offset() as int;
            bytes.subrange(at, at + 3 * width) == zero_bytes(3 * width)
        }),
{
    let bytes = initial_fields(class, byte_order).encoding();
    let width = address_width(class);
    let at: int = entry_offset() as int;
    lemma_be_bytes_of_zero(width);
    assert(bytes.subrange(at, at + 3 * width) =~= zero_bytes(3 * width));
}

} // verus!
