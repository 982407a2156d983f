use vstd::prelude::*;

verus! {

/// Native bit of the bold style.
pub const TTF_STYLE_BOLD: i32 = 1;

/// Native bit of the italic style.
pub const TTF_STYLE_ITALIC: i32 = 2;

/// Native bit of the underline style.
pub const TTF_STYLE_UNDERLINE: i32 = 4;

/// Native bit of the strikethrough style.
pub const TTF_STYLE_STRIKETHROUGH: i32 = 8;

/// Mask of every style bit the native library knows.
pub const TTF_STYLE_MASK: i32 = 15;

/// The render style of a font: a set of style flags, held as the native bit mask.
#[derive(Clone, Copy, Debug, PartialEq, Eq, Structural)]
pub struct FontStyle {
    bits: i32,
}

impl View for FontStyle {
    type V = i32;

    closed spec fn view(&self) -> i32 {
        self.bits
    }
}

impl FontStyle {
    /// A style holds only bits that the native library knows.
    pub open spec fn wf(&self) -> bool {
        self@ & TTF_STYLE_MASK == self@
    }

    /// The plain style: no flag set.
    pub fn normal() -> (r: FontStyle)
        ensures
            r@ == 0,
            r.wf(),
    {
        let r = FontStyle { bits: 0 };
        assert(0i32 & 15i32 == 0i32) by (bit_vector);
        r
    }

    /// The style with every flag set.
    pub fn all() -> (r: FontStyle)
        ensures
            r@ == TTF_STYLE_MASK,
            r.wf(),
    {
        let r = FontStyle { bits: TTF_STYLE_MASK };
        assert(15i32 & 15i32 == 15i32) by (bit_vector);
        r
    }

    /// The bold flag alone.
    pub fn bold() -> (r: FontStyle)
        ensures
            r@ == TTF_STYLE_BOLD,
            r.wf(),
    {
        assert(1i32 & 15i32 == 1i32) by (bit_vector);
        FontStyle { bits: TTF_STYLE_BOLD }
    }

    /// The italic flag alone.
    pub fn italic() -> (r: FontStyle)
        ensures
            r@ == TTF_STYLE_ITALIC,
            r.wf(),
    {
        assert(2i32 & 15i32 == 2i32) by (bit_vector);
        FontStyle { bits: TTF_STYLE_ITALIC }
    }

    /// The underline flag alone.
    pub fn underline() -> (r: FontStyle)
        ensures
            r@ == TTF_STYLE_UNDERLINE,
            r.wf(),
    {
        assert(4i32 & 15i32 == 4i32) by (bit_vector);
        FontStyle { bits: TTF_STYLE_UNDERLINE }
    }

    /// The strikethrough flag alone.
    pub fn strikethrough() -> (r: FontStyle)
        ensures
            r@ == TTF_STYLE_STRIKETHROUGH,
            r.wf(),
    {
        assert(8i32 & 15i32 == 8i32) by (bit_vector);
        FontStyle { bits: TTF_STYLE_STRIKETHROUGH }
    }

    /// The native bit mask of this style.
    pub fn bits(&self) -> (r: i32)
        ensures
            r == self@,
    {
        self.bits
    }

    /// The style whose flags are those of `bits` that the native library
    /// knows; unknown bits are dropped.
    pub fn from_bits_truncate(bits: i32) -> (r: FontStyle)
        ensures
            r@ == bits & TTF_STYLE_MASK,
            r.wf(),
    {
        let r = FontStyle { bits: bits & TTF_STYLE_MASK };
        assert((bits & 15i32) & 15i32 == bits & 15i32) by (bit_vector);
        r
    }

    /// The style of `bits`, or `None` when `bits` holds a bit that the native
    /// library does not know.
    pub fn from_bits(bits: i32) -> (r: Option<FontStyle>)
        ensures
            r is Some <==> bits & TTF_STYLE_MASK == bits,
            r is Some ==> r->0@ == bits && r->0.wf(),
    {
        if bits & TTF_STYLE_MASK == bits {
            Some(FontStyle { bits })
        } else {
            None
        }
    }

    /// Whether no flag is set.
    pub fn is_empty(&self) -> (r: bool)
        ensures
            r == (self@ == 0),
    {
        self.bits == 0
    }

    /// Whether every flag of `other` is set in this style.
    pub fn contains(&self, other: FontStyle) -> (r: bool)
        ensures
            r == (self@ & other@ == other@),
    {
        self.bits & other.bits == other.bits
    }

    /// The flags set in either style.
    pub fn union(&self, other: FontStyle) -> (r: FontStyle)
        requires
            self.wf(),
            other.wf(),
        ensures
            r@ == self@ | other@,
            r.wf(),
    {
        let a = self.bits;
        let b = other.bits;
        assert(a & 15i32 == a && b & 15i32 == b ==> (a | b) & 15i32 == a | b) by (bit_vector);
        FontStyle { bits: a | b }
    }

    /// The flags set in both styles.
    pub fn intersection(&self, other: FontStyle) -> (r: FontStyle)
        requires
            self.wf(),
        ensures
            r@ == self@ & other@,
            r.wf(),
    {
        let a = self.bits;
        let b = other.bits;
        assert(a & 15i32 == a ==> (a & b) & 15i32 == a & b) by (bit_vector);
        FontStyle { bits: a & b }
    }

    /// Sets the flags of `other` in this style.
    pub fn insert(&mut self, other: FontStyle)
        requires
            old(self).wf(),
            other.wf(),
        ensures
            final(self)@ == old(self)@ | other@,
            final(self).wf(),
    {
        *self = self.union(other);
    }

    /// Clears the flags of `other` in this style.
    pub fn remove(&mut self, other: FontStyle)
        requires
            old(self).wf(),
        ensures
            final(self)@ == old(self)@ & !other@,
            final(self).wf(),
    {
        let a = self.bits;
        let b = other.bits;
        assert(a & 15i32 == a ==> (a & !b) & 15i32 == a & !b) by (bit_vector);
        self.bits = a & !b;
    }
}

/// After inserting the flags of `b` into `a`, the result contains them.
pub proof fn lemma_insert_contains(a: FontStyle, b: FontStyle)
    ensures
        (a@ | b@) & b@ == b@,
{
    let x = a@;
    let y = b@;
    assert((x | y) & y == y) by (bit_vector);
}

/// After removing the flags of `b` from `a`, none of them is left.
pub proof fn lemma_remove_excludes(a: FontStyle, b: FontStyle)
    ensures
        (a@ & !b@) & b@ == 0,
{
    let x = a@;
    let y = b@;
    assert((x & !y) & y == 0) by (bit_vector);
}

/// Dropping unknown bits a second time changes nothing.
pub proof fn lemma_truncate_idempotent(bits: i32)
    ensures
        (bits & TTF_STYLE_MASK) & TTF_STYLE_MASK == bits & TTF_STYLE_MASK,
{
    assert((bits & 15i32) & 15i32 == bits & 15i32) by (bit_vector);
}

} // verus!
