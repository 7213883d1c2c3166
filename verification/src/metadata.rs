//! The orientation hint that a picture's embedded metadata may carry.

use vstd::prelude::*;

verus! {

/// Parsed Exif attributes, as `kamadak-exif` holds them.
#[verifier::external_type_specification]
#[verifier::external_body]
pub struct ExExif(exif::Exif);

/// One Exif attribute, as `kamadak-exif` holds it.
#[verifier::external_type_specification]
#[verifier::external_body]
pub struct ExField(exif::Field);

/// Why `kamadak-exif` could not read attributes.
#[verifier::external_type_specification]
#[verifier::external_body]
pub struct ExExifError(exif::Error);

/// What the primary image's orientation attribute holds in `attributes`:
/// `None` without such an attribute, else its unsigned integers (none when
/// its value is of another type).
pub uninterp spec fn orientation_entry(attributes: exif::Exif) -> Option<Seq<u32>>;

/// The unsigned integers that `field` holds: the items of a BYTE, SHORT or
/// LONG value in order, none for a value of another type.
pub uninterp spec fn field_uints(field: exif::Field) -> Seq<u32>;

/// What reading the Exif attributes of the picture file `bytes` gives:
/// `None` where the reader fails, else the orientation entry of what it
/// read.
pub uninterp spec fn orientation_entry_in(bytes: Seq<u8>) -> Option<Option<Seq<u32>>>;

/// Calls `exif::Reader::read_from_container` on the bytes. The attributes
/// read depend on the bytes alone; the contract names the orientation entry
/// among them and says that the reader fails exactly where that name is
/// `None`.
#[verifier::external_body]
fn read_exif(bytes: &[u8]) -> (outcome: Result<exif::Exif, exif::Error>)
    ensures
        match outcome {
            Ok(attributes) => orientation_entry_in(bytes@) == Some(orientation_entry(attributes)),
            Err(_) => orientation_entry_in(bytes@) is None,
        },
{
    exif::Reader::new().read_from_container(&mut std::io::Cursor::new(bytes))
}

/// Calls `exif::Exif::get_field` for the orientation tag of the primary
/// image. The field returned is the one whose integers `orientation_entry`
/// names; none is returned where there is no such attribute.
#[verifier::external_body]
fn orientation_field(attributes: &exif::Exif) -> (field: Option<&exif::Field>)
    ensures
        match field {
            Some(f) => orientation_entry(*attributes) == Some(field_uints(*f)),
            None => orientation_entry(*attributes) is None,
        },
{
    attributes.get_field(exif::Tag::Orientation, exif::In::PRIMARY)
}

/// Calls `exif::Value::get_uint` on the field's value: the unsigned integer
/// at `index`, or `None` where the value holds no unsigned integers or fewer
/// than `index + 1` of them.
#[verifier::external_body]
fn field_uint(field: &exif::Field, index: usize) -> (value: Option<u32>)
    ensures
        value == (if index < field_uints(*field).len() {
            Some(field_uints(*field)[index as int])
        } else {
            None
        }),
{
    field.value.get_uint(index)
}

/// The orientation that an entry stands for: its first unsigned integer, or
/// 1 (leave the picture as it is) where there is no entry or no integer in
/// it.
pub open spec fn orientation_or_identity(entry: Option<Seq<u32>>) -> u32 {
    match entry {
        Some(uints) => if uints.len() > 0 {
            uints[0]
        } else {
            1
        },
        None => 1,
    }
}

/// The orientation that the attributes name for the primary image, 1 where
/// they name none.
pub fn get_exif_orientation(attributes: exif::Exif) -> (orientation: u32)
    ensures
        orientation == orientation_or_identity(orientation_entry(attributes)),
{
    match orientation_field(&attributes) {
        Some(field) => match field_uint(field, 0) {
            Some(value) => value,
            None => 1,
        },
        None => 1,
    }
}

/// The orientation code that the picture file `bytes` asks for: the one its
/// metadata names, 1 where metadata cannot be read or names none.
pub open spec fn orientation_code_in(bytes: Seq<u8>) -> u32 {
    match orientation_entry_in(bytes) {
        Some(entry) => orientation_or_identity(entry),
        None => 1,
    }
}

/// Reads the orientation code out of a picture file's metadata. A file
/// without readable metadata, or whose metadata names no orientation, asks
/// for code 1. The code may lie outside 1 to 8: it is reported as found.
pub fn read_orientation_code(bytes: &[u8]) -> (code: u32)
    ensures
        code == orientation_code_in(bytes@),
{
    match read_exif(bytes) {
        Ok(attributes) => get_exif_orientation(attributes),
        Err(_) => 1,
    }
}

} // verus!
