//! Font data and the code points drawn from the emoji font.

use vstd::prelude::*;

verus! {

/// A font file's bytes and the face within it.
pub struct FontData {
    pub data: Vec<u8>,
    pub face_index: u32,
}

/// The code points treated as emoji: the pictograph, symbol, arrow and
/// dingbat blocks, the zero-width joiner and the emoji presentation
/// selector.
pub open spec fn emoji_code(u: u32) -> bool {
    (0x1F300 <= u <= 0x1FAFF) || (0x1F000 <= u <= 0x1F2FF) || (0x2600 <= u <= 0x27BF) || (0x2300
        <= u <= 0x23FF) || (0x2190 <= u <= 0x21FF) || u == 0x200D || u == 0xFE0F || (0x2B00 <= u
        <= 0x2BFF)
}

pub fn is_emoji(c: char) -> (r: bool)
    ensures
        r == emoji_code(c as u32),
{
    let u = c as u32;
    (0x1F300 <= u && u <= 0x1FAFF) || (0x1F000 <= u && u <= 0x1F2FF) || (0x2600 <= u && u
        <= 0x27BF) || (0x2300 <= u && u <= 0x23FF) || (0x2190 <= u && u <= 0x21FF) || u == 0x200D
        || u == 0xFE0F || (0x2B00 <= u && u <= 0x2BFF)
}

} // verus!
