use vstd::prelude::*;

verus! {

/// Metrics of a single glyph, in pixels.
#[derive(Clone, Copy, Debug, PartialEq, Eq, Structural)]
pub struct GlyphMetrics {
    pub minx: i32,
    pub maxx: i32,
    pub miny: i32,
    pub maxy: i32,
    pub advance: i32,
}

/// The 16-bit code under which the native library looks a character up:
/// the low 16 bits of its scalar value.
pub open spec fn glyph_code_of(ch: char) -> u16 {
    ((ch as u32) % 0x10000) as u16
}

/// The code that the native glyph functions take for `ch`.
pub fn glyph_code(ch: char) -> (r: u16)
    ensures
        r == glyph_code_of(ch),
{
    let v: u32 = ch as u32;
    (v % 0x10000) as u16
}

/// Reads the native answer on whether a glyph is provided: zero means it
/// is not, any other value is the glyph's index.
pub fn glyph_index(provided: i32) -> (r: Option<i32>)
    ensures
        provided == 0 ==> r is None,
        provided != 0 ==> r == Some(provided),
{
    if provided == 0 {
        None
    } else {
        Some(provided)
    }
}

/// Reads the native glyph metrics query: a nonzero status means failure;
/// on success the five values it wrote are the metrics.
pub fn glyph_metrics(status: i32, minx: i32, maxx: i32, miny: i32, maxy: i32, advance: i32) -> (r:
    Option<GlyphMetrics>)
    ensures
        status != 0 ==> r is None,
        status == 0 ==> r == Some(GlyphMetrics { minx, maxx, miny, maxy, advance }),
{
    if status != 0 {
        None
    } else {
        Some(GlyphMetrics { minx, maxx, miny, maxy, advance })
    }
}

/// Reads the native text size query: a nonzero status means failure; on
/// success the width and height it wrote are the size.
pub fn text_size(status: i32, w: i32, h: i32) -> (r: Option<(i32, i32)>)
    ensures
        status != 0 ==> r is None,
        status == 0 ==> r == Some((w, h)),
{
    if status != 0 {
        None
    } else {
        Some((w, h))
    }
}

/// Whether `text` can be handed to the native library as a C string: it
/// holds no NUL byte, which would end the string early.
pub fn is_c_string_safe(text: &[u8]) -> (r: bool)
    ensures
        r == (forall|i: int| 0 <= i < text@.len() ==> text@[i] != 0u8),
{
    let mut i: usize = 0;
    while i < text.len()
        invariant
            0 <= i <= text@.len(),
            forall|j: int| 0 <= j < i ==> text@[j] != 0u8,
        decreases text@.len() - i,
    {
        if text[i] == 0u8 {
            return false;
        }
        i = i + 1;
    }
    true
}

} // verus!
