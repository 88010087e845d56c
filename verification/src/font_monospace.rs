use vstd::prelude::*;

verus! {

/// Width in pixels of every glyph of the monospace font.
pub fn char_width() -> (w: usize)
    ensures
        w == 5,
{
    5
}

/// The nine bit-rows of the 5x9 glyph of a printable ASCII code, least
/// significant bit leftmost; codes the font does not cover are blank.
pub open spec fn spec_glyph(character: u8) -> Seq<u8> {
    match character {
        0x20 => seq![0x00u8, 0x00u8, 0x00u8, 0x00u8, 0x00u8, 0x00u8, 0x00u8, 0x00u8, 0x00u8],
        0x21 => seq![0x00u8, 0x04u8, 0x04u8, 0x04u8, 0x04u8, 0x00u8, 0x04u8, 0x00u8, 0x00u8],
        0x27 => seq![0x00u8, 0x04u8, 0x04u8, 0x00u8, 0x00u8, 0x00u8, 0x00u8, 0x00u8, 0x00u8],
        0x2a => seq![0x00u8, 0x15u8, 0x0eu8, 0x0eu8, 0x15u8, 0x00u8, 0x00u8, 0x00u8, 0x00u8],
        0x2b => seq![0x00u8, 0x00u8, 0x04u8, 0x04u8, 0x1fu8, 0x04u8, 0x04u8, 0x00u8, 0x00u8],
        0x2c => seq![0x00u8, 0x00u8, 0x00u8, 0x00u8, 0x00u8, 0x00u8, 0x04u8, 0x04u8, 0x00u8],
        0x2d => seq![0x00u8, 0x00u8, 0x00u8, 0x00u8, 0x06u8, 0x00u8, 0x00u8, 0x00u8, 0x00u8],
        0x2e => seq![0x00u8, 0x00u8, 0x00u8, 0x00u8, 0x00u8, 0x00u8, 0x04u8, 0x00u8, 0x00u8],
        0x2f => seq![0x00u8, 0x08u8, 0x04u8, 0x04u8, 0x06u8, 0x02u8, 0x02u8, 0x01u8, 0x00u8],
        0x30 => seq![0x00u8, 0x0cu8, 0x12u8, 0x16u8, 0x12u8, 0x12u8, 0x0cu8, 0x00u8, 0x00u8],
        0x31 => seq![0x00u8, 0x06u8, 0x04u8, 0x04u8, 0x04u8, 0x04u8, 0x0eu8, 0x00u8, 0x00u8],
        0x32 => seq![0x00u8, 0x0eu8, 0x10u8, 0x10u8, 0x08u8, 0x04u8, 0x1eu8, 0x00u8, 0x00u8],
        0x33 => seq![0x00u8, 0x0eu8, 0x10u8, 0x10u8, 0x0cu8, 0x10u8, 0x1eu8, 0x00u8, 0x00u8],
        0x34 => seq![0x00u8, 0x08u8, 0x0cu8, 0x0cu8, 0x0au8, 0x1eu8, 0x08u8, 0x00u8, 0x00u8],
        0x35 => seq![0x00u8, 0x1eu8, 0x02u8, 0x0eu8, 0x10u8, 0x10u8, 0x0eu8, 0x00u8, 0x00u8],
        0x36 => seq![0x00u8, 0x1cu8, 0x06u8, 0x02u8, 0x1eu8, 0x12u8, 0x1cu8, 0x00u8, 0x00u8],
        0x37 => seq![0x00u8, 0x1eu8, 0x10u8, 0x08u8, 0x08u8, 0x08u8, 0x04u8, 0x00u8, 0x00u8],
        0x38 => seq![0x00u8, 0x0cu8, 0x12u8, 0x12u8, 0x0cu8, 0x12u8, 0x1eu8, 0x00u8, 0x00u8],
        0x39 => seq![0x00u8, 0x0eu8, 0x12u8, 0x1eu8, 0x10u8, 0x18u8, 0x0eu8, 0x00u8, 0x00u8],
        0x3a => seq![0x00u8, 0x00u8, 0x00u8, 0x04u8, 0x00u8, 0x00u8, 0x04u8, 0x00u8, 0x00u8],
        0x3b => seq![0x00u8, 0x00u8, 0x00u8, 0x04u8, 0x00u8, 0x00u8, 0x04u8, 0x04u8, 0x00u8],
        0x3c => seq![0x00u8, 0x00u8, 0x00u8, 0x10u8, 0x0eu8, 0x06u8, 0x18u8, 0x00u8, 0x00u8],
        0x3d => seq![0x00u8, 0x00u8, 0x00u8, 0x0fu8, 0x00u8, 0x0fu8, 0x00u8, 0x00u8, 0x00u8],
        0x3e => seq![0x00u8, 0x00u8, 0x00u8, 0x02u8, 0x1cu8, 0x18u8, 0x06u8, 0x00u8, 0x00u8],
        0x3f => seq![0x00u8, 0x0eu8, 0x0cu8, 0x04u8, 0x04u8, 0x00u8, 0x04u8, 0x00u8, 0x00u8],
        0x40 => seq![0x00u8, 0x00u8, 0x0cu8, 0x12u8, 0x1au8, 0x1au8, 0x02u8, 0x0cu8, 0x00u8],
        0x41 => seq![0x00u8, 0x0cu8, 0x0cu8, 0x0cu8, 0x0cu8, 0x1eu8, 0x12u8, 0x00u8, 0x00u8],
        0x42 => seq![0x00u8, 0x0eu8, 0x12u8, 0x12u8, 0x0eu8, 0x12u8, 0x1eu8, 0x00u8, 0x00u8],
        0x43 => seq![0x00u8, 0x1cu8, 0x02u8, 0x02u8, 0x02u8, 0x02u8, 0x1cu8, 0x00u8, 0x00u8],
        0x44 => seq![0x00u8, 0x0eu8, 0x12u8, 0x12u8, 0x12u8, 0x12u8, 0x0eu8, 0x00u8, 0x00u8],
        0x45 => seq![0x00u8, 0x1eu8, 0x02u8, 0x02u8, 0x1eu8, 0x02u8, 0x1eu8, 0x00u8, 0x00u8],
        0x46 => seq![0x00u8, 0x1eu8, 0x02u8, 0x02u8, 0x1eu8, 0x02u8, 0x02u8, 0x00u8, 0x00u8],
        0x47 => seq![0x00u8, 0x1cu8, 0x02u8, 0x02u8, 0x1au8, 0x12u8, 0x1cu8, 0x00u8, 0x00u8],
        0x48 => seq![0x00u8, 0x12u8, 0x12u8, 0x12u8, 0x1eu8, 0x12u8, 0x12u8, 0x00u8, 0x00u8],
        0x49 => seq![0x00u8, 0x0eu8, 0x04u8, 0x04u8, 0x04u8, 0x04u8, 0x0eu8, 0x00u8, 0x00u8],
        0x4a => seq![0x00u8, 0x0cu8, 0x08u8, 0x08u8, 0x08u8, 0x08u8, 0x0eu8, 0x00u8, 0x00u8],
        0x4b => seq![0x00u8, 0x12u8, 0x0au8, 0x06u8, 0x0au8, 0x0au8, 0x12u8, 0x00u8, 0x00u8],
        0x4c => seq![0x00u8, 0x02u8, 0x02u8, 0x02u8, 0x02u8, 0x02u8, 0x1eu8, 0x00u8, 0x00u8],
        0x4d => seq![0x00u8, 0x12u8, 0x1eu8, 0x1eu8, 0x1eu8, 0x12u8, 0x12u8, 0x00u8, 0x00u8],
        0x4e => seq![0x00u8, 0x12u8, 0x16u8, 0x16u8, 0x1au8, 0x1au8, 0x12u8, 0x00u8, 0x00u8],
        0x4f => seq![0x00u8, 0x0cu8, 0x12u8, 0x12u8, 0x12u8, 0x12u8, 0x0cu8, 0x00u8, 0x00u8],
        0x50 => seq![0x00u8, 0x1eu8, 0x12u8, 0x1eu8, 0x02u8, 0x02u8, 0x02u8, 0x00u8, 0x00u8],
        0x51 => seq![0x00u8, 0x0cu8, 0x12u8, 0x12u8, 0x12u8, 0x12u8, 0x0cu8, 0x10u8, 0x00u8],
        0x52 => seq![0x00u8, 0x1eu8, 0x12u8, 0x0eu8, 0x1au8, 0x12u8, 0x02u8, 0x00u8, 0x00u8],
        0x53 => seq![0x00u8, 0x1cu8, 0x02u8, 0x0eu8, 0x18u8, 0x10u8, 0x1eu8, 0x00u8, 0x00u8],
        0x54 => seq![0x00u8, 0x1fu8, 0x04u8, 0x04u8, 0x04u8, 0x04u8, 0x04u8, 0x00u8, 0x00u8],
        0x55 => seq![0x00u8, 0x12u8, 0x12u8, 0x12u8, 0x12u8, 0x12u8, 0x0cu8, 0x00u8, 0x00u8],
        0x56 => seq![0x00u8, 0x12u8, 0x12u8, 0x0cu8, 0x0cu8, 0x0cu8, 0x0cu8, 0x00u8, 0x00u8],
        0x57 => seq![0x00u8, 0x11u8, 0x11u8, 0x15u8, 0x0au8, 0x0au8, 0x0au8, 0x00u8, 0x00u8],
        0x58 => seq![0x00u8, 0x12u8, 0x0cu8, 0x0cu8, 0x0cu8, 0x0cu8, 0x12u8, 0x00u8, 0x00u8],
        0x59 => seq![0x00u8, 0x11u8, 0x0au8, 0x04u8, 0x04u8, 0x04u8, 0x04u8, 0x00u8, 0x00u8],
        0x5a => seq![0x00u8, 0x1eu8, 0x08u8, 0x08u8, 0x04u8, 0x04u8, 0x1eu8, 0x00u8, 0x00u8],
        0x5c => seq![0x00u8, 0x01u8, 0x02u8, 0x02u8, 0x06u8, 0x04u8, 0x04u8, 0x08u8, 0x00u8],
        0x5e => seq![0x00u8, 0x06u8, 0x09u8, 0x00u8, 0x00u8, 0x00u8, 0x00u8, 0x00u8, 0x00u8],
        0x5f => seq![0x00u8, 0x00u8, 0x00u8, 0x00u8, 0x00u8, 0x00u8, 0x00u8, 0x00u8, 0x1fu8],
        0x60 => seq![0x00u8, 0x02u8, 0x00u8, 0x00u8, 0x00u8, 0x00u8, 0x00u8, 0x00u8, 0x00u8],
        0x61 => seq![0x00u8, 0x00u8, 0x00u8, 0x1eu8, 0x1eu8, 0x12u8, 0x1eu8, 0x00u8, 0x00u8],
        0x62 => seq![0x02u8, 0x02u8, 0x02u8, 0x0eu8, 0x12u8, 0x12u8, 0x0eu8, 0x00u8, 0x00u8],
        0x63 => seq![0x00u8, 0x00u8, 0x00u8, 0x0cu8, 0x02u8, 0x02u8, 0x0cu8, 0x00u8, 0x00u8],
        0x64 => seq![0x10u8, 0x10u8, 0x10u8, 0x1cu8, 0x12u8, 0x12u8, 0x1cu8, 0x00u8, 0x00u8],
        0x65 => seq![0x00u8, 0x00u8, 0x00u8, 0x1cu8, 0x1eu8, 0x02u8, 0x1cu8, 0x00u8, 0x00u8],
        0x66 => seq![0x18u8, 0x04u8, 0x04u8, 0x1eu8, 0x04u8, 0x04u8, 0x04u8, 0x00u8, 0x00u8],
        0x67 => seq![0x00u8, 0x00u8, 0x00u8, 0x1cu8, 0x12u8, 0x12u8, 0x1cu8, 0x10u8, 0x0eu8],
        0x68 => seq![0x02u8, 0x02u8, 0x02u8, 0x1eu8, 0x12u8, 0x12u8, 0x12u8, 0x00u8, 0x00u8],
        0x69 => seq![0x04u8, 0x00u8, 0x00u8, 0x06u8, 0x04u8, 0x04u8, 0x0eu8, 0x00u8, 0x00u8],
        0x6a => seq![0x04u8, 0x00u8, 0x00u8, 0x06u8, 0x04u8, 0x04u8, 0x04u8, 0x04u8, 0x07u8],
        0x6b => seq![0x02u8, 0x02u8, 0x02u8, 0x1au8, 0x0eu8, 0x0eu8, 0x1au8, 0x00u8, 0x00u8],
        0x6c => seq![0x06u8, 0x04u8, 0x04u8, 0x04u8, 0x04u8, 0x04u8, 0x1cu8, 0x00u8, 0x00u8],
        0x6d => seq![0x00u8, 0x00u8, 0x00u8, 0x1eu8, 0x0au8, 0x0au8, 0x0au8, 0x00u8, 0x00u8],
        0x6e => seq![0x00u8, 0x00u8, 0x00u8, 0x1eu8, 0x12u8, 0x12u8, 0x12u8, 0x00u8, 0x00u8],
        0x6f => seq![0x00u8, 0x00u8, 0x00u8, 0x0cu8, 0x12u8, 0x12u8, 0x0cu8, 0x00u8, 0x00u8],
        0x70 => seq![0x00u8, 0x00u8, 0x00u8, 0x0eu8, 0x12u8, 0x12u8, 0x0eu8, 0x02u8, 0x02u8],
        0x71 => seq![0x00u8, 0x00u8, 0x00u8, 0x1cu8, 0x12u8, 0x12u8, 0x1cu8, 0x10u8, 0x10u8],
        0x72 => seq![0x00u8, 0x00u8, 0x00u8, 0x0eu8, 0x02u8, 0x02u8, 0x02u8, 0x00u8, 0x00u8],
        0x73 => seq![0x00u8, 0x00u8, 0x00u8, 0x1eu8, 0x0eu8, 0x10u8, 0x1eu8, 0x00u8, 0x00u8],
        0x74 => seq![0x00u8, 0x00u8, 0x04u8, 0x1eu8, 0x04u8, 0x04u8, 0x1cu8, 0x00u8, 0x00u8],
        0x75 => seq![0x00u8, 0x00u8, 0x00u8, 0x12u8, 0x12u8, 0x12u8, 0x1eu8, 0x00u8, 0x00u8],
        0x76 => seq![0x00u8, 0x00u8, 0x00u8, 0x12u8, 0x0cu8, 0x0cu8, 0x0cu8, 0x00u8, 0x00u8],
        0x77 => seq![0x00u8, 0x00u8, 0x00u8, 0x11u8, 0x15u8, 0x0eu8, 0x0au8, 0x00u8, 0x00u8],
        0x78 => seq![0x00u8, 0x00u8, 0x00u8, 0x1eu8, 0x0cu8, 0x0cu8, 0x1eu8, 0x00u8, 0x00u8],
        0x79 => seq![0x00u8, 0x00u8, 0x00u8, 0x12u8, 0x0cu8, 0x0cu8, 0x04u8, 0x04u8, 0x06u8],
        0x7a => seq![0x00u8, 0x00u8, 0x00u8, 0x1eu8, 0x0cu8, 0x04u8, 0x1eu8, 0x00u8, 0x00u8],
        0x7b => seq![0x0cu8, 0x04u8, 0x04u8, 0x02u8, 0x04u8, 0x04u8, 0x0cu8, 0x00u8, 0x00u8],
        0x7c => seq![0x04u8, 0x04u8, 0x04u8, 0x04u8, 0x04u8, 0x04u8, 0x04u8, 0x04u8, 0x00u8],
        0x7d => seq![0x06u8, 0x04u8, 0x04u8, 0x08u8, 0x04u8, 0x04u8, 0x06u8, 0x00u8, 0x00u8],
        0x7e => seq![0x00u8, 0x00u8, 0x00u8, 0x00u8, 0x1eu8, 0x00u8, 0x00u8, 0x00u8, 0x00u8],
        _ => seq![0x00u8, 0x00u8, 0x00u8, 0x00u8, 0x00u8, 0x00u8, 0x00u8, 0x00u8, 0x00u8],
    }
}

/// Returns the nine bit-rows of the 5x9 glyph for a printable ASCII code.
/// Each byte holds one pixel row, least significant bit leftmost; codes the
/// font does not cover yield a blank glyph.
pub fn get_bytes_for_char(character: u8) -> (r: Vec<u8>)
    requires
        0x20 <= character <= 0x7e,
    ensures
        r@ == spec_glyph(character),
        r@.len() == 9,
{
    match character {
        0x20 => vec![0x00, 0x00, 0x00, 0x00, 0x00, 0x00, 0x00, 0x00, 0x00],
        0x21 => vec![0x00, 0x04, 0x04, 0x04, 0x04, 0x00, 0x04, 0x00, 0x00],
        0x27 => vec![0x00, 0x04, 0x04, 0x00, 0x00, 0x00, 0x00, 0x00, 0x00],
        0x2a => vec![0x00, 0x15, 0x0e, 0x0e, 0x15, 0x00, 0x00, 0x00, 0x00],
        0x2b => vec![0x00, 0x00, 0x04, 0x04, 0x1f, 0x04, 0x04, 0x00, 0x00],
        0x2c => vec![0x00, 0x00, 0x00, 0x00, 0x00, 0x00, 0x04, 0x04, 0x00],
        0x2d => vec![0x00, 0x00, 0x00, 0x00, 0x06, 0x00, 0x00, 0x00, 0x00],
        0x2e => vec![0x00, 0x00, 0x00, 0x00, 0x00, 0x00, 0x04, 0x00, 0x00],
        0x2f => vec![0x00, 0x08, 0x04, 0x04, 0x06, 0x02, 0x02, 0x01, 0x00],
        0x30 => vec![0x00, 0x0c, 0x12, 0x16, 0x12, 0x12, 0x0c, 0x00, 0x00],
        0x31 => vec![0x00, 0x06, 0x04, 0x04, 0x04, 0x04, 0x0e, 0x00, 0x00],
        0x32 => vec![0x00, 0x0e, 0x10, 0x10, 0x08, 0x04, 0x1e, 0x00, 0x00],
        0x33 => vec![0x00, 0x0e, 0x10, 0x10, 0x0c, 0x10, 0x1e, 0x00, 0x00],
        0x34 => vec![0x00, 0x08, 0x0c, 0x0c, 0x0a, 0x1e, 0x08, 0x00, 0x00],
        0x35 => vec![0x00, 0x1e, 0x02, 0x0e, 0x10, 0x10, 0x0e, 0x00, 0x00],
        0x36 => vec![0x00, 0x1c, 0x06, 0x02, 0x1e, 0x12, 0x1c, 0x00, 0x00],
        0x37 => vec![0x00, 0x1e, 0x10, 0x08, 0x08, 0x08, 0x04, 0x00, 0x00],
        0x38 => vec![0x00, 0x0c, 0x12, 0x12, 0x0c, 0x12, 0x1e, 0x00, 0x00],
        0x39 => vec![0x00, 0x0e, 0x12, 0x1e, 0x10, 0x18, 0x0e, 0x00, 0x00],
        0x3a => vec![0x00, 0x00, 0x00, 0x04, 0x00, 0x00, 0x04, 0x00, 0x00],
        0x3b => vec![0x00, 0x00, 0x00, 0x04, 0x00, 0x00, 0x04, 0x04, 0x00],
        0x3c => vec![0x00, 0x00, 0x00, 0x10, 0x0e, 0x06, 0x18, 0x00, 0x00],
        0x3d => vec![0x00, 0x00, 0x00, 0x0f, 0x00, 0x0f, 0x00, 0x00, 0x00],
        0x3e => vec![0x00, 0x00, 0x00, 0x02, 0x1c, 0x18, 0x06, 0x00, 0x00],
        0x3f => vec![0x00, 0x0e, 0x0c, 0x04, 0x04, 0x00, 0x04, 0x00, 0x00],
        0x40 => vec![0x00, 0x00, 0x0c, 0x12, 0x1a, 0x1a, 0x02, 0x0c, 0x00],
        0x41 => vec![0x00, 0x0c, 0x0c, 0x0c, 0x0c, 0x1e, 0x12, 0x00, 0x00],
        0x42 => vec![0x00, 0x0e, 0x12, 0x12, 0x0e, 0x12, 0x1e, 0x00, 0x00],
        0x43 => vec![0x00, 0x1c, 0x02, 0x02, 0x02, 0x02, 0x1c, 0x00, 0x00],
        0x44 => vec![0x00, 0x0e, 0x12, 0x12, 0x12, 0x12, 0x0e, 0x00, 0x00],
        0x45 => vec![0x00, 0x1e, 0x02, 0x02, 0x1e, 0x02, 0x1e, 0x00, 0x00],
        0x46 => vec![0x00, 0x1e, 0x02, 0x02, 0x1e, 0x02, 0x02, 0x00, 0x00],
        0x47 => vec![0x00, 0x1c, 0x02, 0x02, 0x1a, 0x12, 0x1c, 0x00, 0x00],
        0x48 => vec![0x00, 0x12, 0x12, 0x12, 0x1e, 0x12, 0x12, 0x00, 0x00],
        0x49 => vec![0x00, 0x0e, 0x04, 0x04, 0x04, 0x04, 0x0e, 0x00, 0x00],
        0x4a => vec![0x00, 0x0c, 0x08, 0x08, 0x08, 0x08, 0x0e, 0x00, 0x00],
        0x4b => vec![0x00, 0x12, 0x0a, 0x06, 0x0a, 0x0a, 0x12, 0x00, 0x00],
        0x4c => vec![0x00, 0x02, 0x02, 0x02, 0x02, 0x02, 0x1e, 0x00, 0x00],
        0x4d => vec![0x00, 0x12, 0x1e, 0x1e, 0x1e, 0x12, 0x12, 0x00, 0x00],
        0x4e => vec![0x00, 0x12, 0x16, 0x16, 0x1a, 0x1a, 0x12, 0x00, 0x00],
        0x4f => vec![0x00, 0x0c, 0x12, 0x12, 0x12, 0x12, 0x0c, 0x00, 0x00],
        0x50 => vec![0x00, 0x1e, 0x12, 0x1e, 0x02, 0x02, 0x02, 0x00, 0x00],
        0x51 => vec![0x00, 0x0c, 0x12, 0x12, 0x12, 0x12, 0x0c, 0x10, 0x00],
        0x52 => vec![0x00, 0x1e, 0x12, 0x0e, 0x1a, 0x12, 0x02, 0x00, 0x00],
        0x53 => vec![0x00, 0x1c, 0x02, 0x0e, 0x18, 0x10, 0x1e, 0x00, 0x00],
        0x54 => vec![0x00, 0x1f, 0x04, 0x04, 0x04, 0x04, 0x04, 0x00, 0x00],
        0x55 => vec![0x00, 0x12, 0x12, 0x12, 0x12, 0x12, 0x0c, 0x00, 0x00],
        0x56 => vec![0x00, 0x12, 0x12, 0x0c, 0x0c, 0x0c, 0x0c, 0x00, 0x00],
        0x57 => vec![0x00, 0x11, 0x11, 0x15, 0x0a, 0x0a, 0x0a, 0x00, 0x00],
        0x58 => vec![0x00, 0x12, 0x0c, 0x0c, 0x0c, 0x0c, 0x12, 0x00, 0x00],
        0x59 => vec![0x00, 0x11, 0x0a, 0x04, 0x04, 0x04, 0x04, 0x00, 0x00],
        0x5a => vec![0x00, 0x1e, 0x08, 0x08, 0x04, 0x04, 0x1e, 0x00, 0x00],
        0x5c => vec![0x00, 0x01, 0x02, 0x02, 0x06, 0x04, 0x04, 0x08, 0x00],
        0x5e => vec![0x00, 0x06, 0x09, 0x00, 0x00, 0x00, 0x00, 0x00, 0x00],
        0x5f => vec![0x00, 0x00, 0x00, 0x00, 0x00, 0x00, 0x00, 0x00, 0x1f],
        0x60 => vec![0x00, 0x02, 0x00, 0x00, 0x00, 0x00, 0x00, 0x00, 0x00],
        0x61 => vec![0x00, 0x00, 0x00, 0x1e, 0x1e, 0x12, 0x1e, 0x00, 0x00],
        0x62 => vec![0x02, 0x02, 0x02, 0x0e, 0x12, 0x12, 0x0e, 0x00, 0x00],
        0x63 => vec![0x00, 0x00, 0x00, 0x0c, 0x02, 0x02, 0x0c, 0x00, 0x00],
        0x64 => vec![0x10, 0x10, 0x10, 0x1c, 0x12, 0x12, 0x1c, 0x00, 0x00],
        0x65 => vec![0x00, 0x00, 0x00, 0x1c, 0x1e, 0x02, 0x1c, 0x00, 0x00],
        0x66 => vec![0x18, 0x04, 0x04, 0x1e, 0x04, 0x04, 0x04, 0x00, 0x00],
        0x67 => vec![0x00, 0x00, 0x00, 0x1c, 0x12, 0x12, 0x1c, 0x10, 0x0e],
        0x68 => vec![0x02, 0x02, 0x02, 0x1e, 0x12, 0x12, 0x12, 0x00, 0x00],
        0x69 => vec![0x04, 0x00, 0x00, 0x06, 0x04, 0x04, 0x0e, 0x00, 0x00],
        0x6a => vec![0x04, 0x00, 0x00, 0x06, 0x04, 0x04, 0x04, 0x04, 0x07],
        0x6b => vec![0x02, 0x02, 0x02, 0x1a, 0x0e, 0x0e, 0x1a, 0x00, 0x00],
        0x6c => vec![0x06, 0x04, 0x04, 0x04, 0x04, 0x04, 0x1c, 0x00, 0x00],
        0x6d => vec![0x00, 0x00, 0x00, 0x1e, 0x0a, 0x0a, 0x0a, 0x00, 0x00],
        0x6e => vec![0x00, 0x00, 0x00, 0x1e, 0x12, 0x12, 0x12, 0x00, 0x00],
        0x6f => vec![0x00, 0x00, 0x00, 0x0c, 0x12, 0x12, 0x0c, 0x00, 0x00],
        0x70 => vec![0x00, 0x00, 0x00, 0x0e, 0x12, 0x12, 0x0e, 0x02, 0x02],
        0x71 => vec![0x00, 0x00, 0x00, 0x1c, 0x12, 0x12, 0x1c, 0x10, 0x10],
        0x72 => vec![0x00, 0x00, 0x00, 0x0e, 0x02, 0x02, 0x02, 0x00, 0x00],
        0x73 => vec![0x00, 0x00, 0x00, 0x1e, 0x0e, 0x10, 0x1e, 0x00, 0x00],
        0x74 => vec![0x00, 0x00, 0x04, 0x1e, 0x04, 0x04, 0x1c, 0x00, 0x00],
        0x75 => vec![0x00, 0x00, 0x00, 0x12, 0x12, 0x12, 0x1e, 0x00, 0x00],
        0x76 => vec![0x00, 0x00, 0x00, 0x12, 0x0c, 0x0c, 0x0c, 0x00, 0x00],
        0x77 => vec![0x00, 0x00, 0x00, 0x11, 0x15, 0x0e, 0x0a, 0x00, 0x00],
        0x78 => vec![0x00, 0x00, 0x00, 0x1e, 0x0c, 0x0c, 0x1e, 0x00, 0x00],
        0x79 => vec![0x00, 0x00, 0x00, 0x12, 0x0c, 0x0c, 0x04, 0x04, 0x06],
        0x7a => vec![0x00, 0x00, 0x00, 0x1e, 0x0c, 0x04, 0x1e, 0x00, 0x00],
        0x7b => vec![0x0c, 0x04, 0x04, 0x02, 0x04, 0x04, 0x0c, 0x00, 0x00],
        0x7c => vec![0x04, 0x04, 0x04, 0x04, 0x04, 0x04, 0x04, 0x04, 0x00],
        0x7d => vec![0x06, 0x04, 0x04, 0x08, 0x04, 0x04, 0x06, 0x00, 0x00],
        0x7e => vec![0x00, 0x00, 0x00, 0x00, 0x1e, 0x00, 0x00, 0x00, 0x00],
        _ => vec![0x00, 0x00, 0x00, 0x00, 0x00, 0x00, 0x00, 0x00, 0x00],
    }
}

} // verus!
