//! Fixed identifiers of the printer family and the catalogue of label media.

use vstd::prelude::*;

verus! {

/// USB vendor id of Brother Industries.
pub const VENDOR_ID: u16 = 0x04F9;

/// Product id of a printer in "Editor Lite" mode, which cannot take raster jobs.
pub const EDITOR_LITE_PRODUCT_ID: u16 = 0x2049;

/// Physical geometry of a label, as the raster protocol needs it.
#[derive(Debug, Clone, Copy)]
pub struct Label {
    /// Nominal tape size in millimetres (width, length); length 0 is endless tape.
    pub tape_size: (u8, u8),
    /// Dots that land on the tape (across the print head, along the tape).
    pub dots_printable: (u32, u32),
    /// Leading/trailing feed in the device's units.
    pub feed_margin: u8,
}

/// The catalogue entry of a label with tape `size`, printable `dots` and `margin`.
pub open spec fn entry(size: (u8, u8), dots: (u32, u32), margin: u8) -> Option<Label> {
    Some(Label { tape_size: size, dots_printable: dots, feed_margin: margin })
}

/// The label catalogue: media `width` in mm, and `length` in mm for die-cut media.
pub open spec fn label_spec(width: u8, length: Option<u8>) -> Option<Label> {
    match length {
        None => match width {
            12 => entry((12, 0), (106, 0), 35),
            29 => entry((29, 0), (306, 0), 35),
            38 => entry((38, 0), (413, 0), 35),
            50 => entry((50, 0), (554, 0), 35),
            54 => entry((54, 0), (590, 0), 35),
            62 => entry((62, 0), (696, 0), 35),
            _ => None,
        },
        Some(l) => match (width, l) {
            (12, 12) => entry((12, 12), (94, 94), 35),
            (17, 54) => entry((17, 54), (165, 566), 0),
            (17, 87) => entry((17, 87), (165, 956), 0),
            (23, 23) => entry((23, 23), (202, 202), 0),
            (24, 24) => entry((24, 24), (236, 236), 0),
            (29, 42) => entry((29, 42), (306, 425), 0),
            (29, 90) => entry((29, 90), (306, 991), 0),
            (38, 90) => entry((38, 90), (413, 991), 0),
            (39, 48) => entry((39, 48), (425, 495), 0),
            (52, 29) => entry((52, 29), (578, 271), 0),
            (58, 58) => entry((58, 58), (618, 618), 0),
            (62, 29) => entry((62, 29), (696, 271), 0),
            (62, 100) => entry((62, 100), (696, 1109), 0),
            _ => None,
        },
    }
}

fn make(size: (u8, u8), dots: (u32, u32), margin: u8) -> (r: Option<Label>)
    ensures
        r == entry(size, dots, margin),
{
    Some(Label { tape_size: size, dots_printable: dots, feed_margin: margin })
}

/// Looks up the label of media `width` mm wide and, for die-cut media, `length` mm long.
pub fn label_data(width: u8, length: Option<u8>) -> (r: Option<Label>)
    ensures
        r == label_spec(width, length),
{
    match length {
        None => match width {
            12 => make((12, 0), (106, 0), 35),
            29 => make((29, 0), (306, 0), 35),
            38 => make((38, 0), (413, 0), 35),
            50 => make((50, 0), (554, 0), 35),
            54 => make((54, 0), (590, 0), 35),
            62 => make((62, 0), (696, 0), 35),
            _ => None,
        },
        Some(l) => match (width, l) {
            (12, 12) => make((12, 12), (94, 94), 35),
            (17, 54) => make((17, 54), (165, 566), 0),
            (17, 87) => make((17, 87), (165, 956), 0),
            (23, 23) => make((23, 23), (202, 202), 0),
            (24, 24) => make((24, 24), (236, 236), 0),
            (29, 42) => make((29, 42), (306, 425), 0),
            (29, 90) => make((29, 90), (306, 991), 0),
            (38, 90) => make((38, 90), (413, 991), 0),
            (39, 48) => make((39, 48), (425, 495), 0),
            (52, 29) => make((52, 29), (578, 271), 0),
            (58, 58) => make((58, 58), (618, 618), 0),
            (62, 29) => make((62, 29), (696, 271), 0),
            (62, 100) => make((62, 100), (696, 1109), 0),
            _ => None,
        },
    }
}

/// Model name of the printer with USB `product_id`, if it belongs to the family.
pub open spec fn printer_name(product_id: u16) -> Option<Seq<char>> {
    match product_id {
        0x2015 => Some("QL-500"@),
        0x2016 => Some("QL-550"@),
        0x2027 => Some("QL-560"@),
        0x2028 => Some("QL-570"@),
        0x2029 => Some("QL-580N"@),
        0x201B => Some("QL-650TD"@),
        0x2042 => Some("QL-700"@),
        0x2043 => Some("QL-710W"@),
        0x2044 => Some("QL-720NW"@),
        0x209B => Some("QL-800"@),
        0x209C => Some("QL-810W"@),
        0x209D => Some("QL-820NWB"@),
        0x2020 => Some("QL-1050"@),
        0x202A => Some("QL-1060N"@),
        _ => None,
    }
}

/// Looks up the model name of USB `product_id`.
pub fn printer_name_from_id(product_id: u16) -> (r: Option<&'static str>)
    ensures
        r is Some <==> printer_name(product_id) is Some,
        r is Some ==> r->0@ == printer_name(product_id)->0,
{
    match product_id {
        0x2015 => Some("QL-500"),
        0x2016 => Some("QL-550"),
        0x2027 => Some("QL-560"),
        0x2028 => Some("QL-570"),
        0x2029 => Some("QL-580N"),
        0x201B => Some("QL-650TD"),
        0x2042 => Some("QL-700"),
        0x2043 => Some("QL-710W"),
        0x2044 => Some("QL-720NW"),
        0x209B => Some("QL-800"),
        0x209C => Some("QL-810W"),
        0x209D => Some("QL-820NWB"),
        0x2020 => Some("QL-1050"),
        0x202A => Some("QL-1060N"),
        _ => None,
    }
}

/// Whether discovery keeps a USB device with these ids: a known printer of
/// the family, or one in Editor Lite mode (kept, with a notice to the user).
pub fn is_supported_printer(vendor_id: u16, product_id: u16) -> (r: bool)
    ensures
        r == (vendor_id == VENDOR_ID && (printer_name(product_id) is Some || product_id
            == EDITOR_LITE_PRODUCT_ID)),
{
    vendor_id == VENDOR_ID && (printer_name_from_id(product_id).is_some() || product_id
        == EDITOR_LITE_PRODUCT_ID)
}

/// Whether a USB device with these ids is a printer left in Editor Lite mode,
/// which the user must switch off before raster printing.
pub fn needs_editor_lite_notice(vendor_id: u16, product_id: u16) -> (r: bool)
    ensures
        r == (vendor_id == VENDOR_ID && product_id == EDITOR_LITE_PRODUCT_ID),
{
    vendor_id == VENDOR_ID && product_id == EDITOR_LITE_PRODUCT_ID
}

} // verus!
