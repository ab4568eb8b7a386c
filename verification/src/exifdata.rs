//! Reads the EXIF fields this library cares about out of a captured image
//! file's bytes. The parsing itself is done by the `exif` crate; what each
//! extraction returns is a function of the bytes alone, so the results are
//! carried by named spec functions that the date and orientation logic
//! builds on.

use vstd::prelude::*;

verus! {

/// The `DateTimeOriginal` text stored in the given image bytes, if any.
pub uninterp spec fn exif_datetime_of(bytes: Seq<u8>) -> Option<Seq<char>>;

/// The `OffsetTimeOriginal` text stored in the given image bytes, if any.
pub uninterp spec fn exif_offset_of(bytes: Seq<u8>) -> Option<Seq<char>>;

/// The `Orientation` tag value stored in the given image bytes, if any.
pub uninterp spec fn exif_orientation_of(bytes: Seq<u8>) -> Option<u32>;

/// Relies on exif::Reader::read_from_container and Exif::get_field: the
/// DateTimeOriginal ASCII field of an image depends on its bytes alone;
/// `None` when the container or the field cannot be read.
#[verifier::external_body]
pub fn read_exif_datetime(bytes: &Vec<u8>) -> (r: Option<String>)
    ensures
        r is Some <==> exif_datetime_of(bytes@) is Some,
        r is Some ==> r->0@ == exif_datetime_of(bytes@)->0,
{
    let mut cur = std::io::Cursor::new(bytes.as_slice());
    let parsed = match exif::Reader::new().read_from_container(&mut cur) {
        Ok(e) => e,
        Err(_) => return None,
    };
    match parsed.get_field(exif::Tag::DateTimeOriginal, exif::In::PRIMARY) {
        Some(f) => match &f.value {
            exif::Value::Ascii(v) => v.first().map(|b| String::from_utf8_lossy(b).into_owned()),
            _ => None,
        },
        None => None,
    }
}

/// Relies on exif::Reader::read_from_container and Exif::get_field: the
/// OffsetTimeOriginal ASCII field of an image depends on its bytes alone;
/// `None` when the container or the field cannot be read.
#[verifier::external_body]
pub fn read_exif_offset(bytes: &Vec<u8>) -> (r: Option<String>)
    ensures
        r is Some <==> exif_offset_of(bytes@) is Some,
        r is Some ==> r->0@ == exif_offset_of(bytes@)->0,
{
    let mut cur = std::io::Cursor::new(bytes.as_slice());
    let parsed = match exif::Reader::new().read_from_container(&mut cur) {
        Ok(e) => e,
        Err(_) => return None,
    };
    match parsed.get_field(exif::Tag::OffsetTimeOriginal, exif::In::PRIMARY) {
        Some(f) => match &f.value {
            exif::Value::Ascii(v) => v.first().map(|b| String::from_utf8_lossy(b).into_owned()),
            _ => None,
        },
        None => None,
    }
}

/// Relies on exif::Reader::read_from_container and Exif::get_field: the
/// Orientation short field of an image depends on its bytes alone; `None`
/// when the container or the field cannot be read.
#[verifier::external_body]
pub fn read_exif_orientation(bytes: &Vec<u8>) -> (r: Option<u32>)
    ensures
        r == exif_orientation_of(bytes@),
{
    let mut cur = std::io::Cursor::new(bytes.as_slice());
    let parsed = match exif::Reader::new().read_from_container(&mut cur) {
        Ok(e) => e,
        Err(_) => return None,
    };
    match parsed.get_field(exif::Tag::Orientation, exif::In::PRIMARY) {
        Some(f) => match &f.value {
            exif::Value::Short(v) => v.first().map(|&x| x as u32),
            _ => None,
        },
        None => None,
    }
}

} // verus!
