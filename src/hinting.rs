use vstd::prelude::*;

verus! {

/// Native code of normal hinting.
pub const TTF_HINTING_NORMAL: i32 = 0;

/// Native code of light hinting.
pub const TTF_HINTING_LIGHT: i32 = 1;

/// Native code of monochrome hinting.
pub const TTF_HINTING_MONO: i32 = 2;

/// Native code of no hinting.
pub const TTF_HINTING_NONE: i32 = 3;

/// The FreeType hinter setting of a font.
#[derive(Clone, Copy, Debug, PartialEq, Eq, Structural)]
pub enum Hinting {
    Normal,
    Light,
    Mono,
    NoHinting,
}

/// The native code of a hinter setting.
pub open spec fn hinting_code(h: Hinting) -> i32 {
    match h {
        Hinting::Normal => TTF_HINTING_NORMAL,
        Hinting::Light => TTF_HINTING_LIGHT,
        Hinting::Mono => TTF_HINTING_MONO,
        Hinting::NoHinting => TTF_HINTING_NONE,
    }
}

/// The hinter setting that a native code stands for; a code the native
/// library does not define reads as no hinting.
pub open spec fn hinting_of_code(code: i32) -> Hinting {
    if code == TTF_HINTING_NORMAL {
        Hinting::Normal
    } else if code == TTF_HINTING_LIGHT {
        Hinting::Light
    } else if code == TTF_HINTING_MONO {
        Hinting::Mono
    } else {
        Hinting::NoHinting
    }
}

impl Hinting {
    /// The native code of this setting, as handed to the native setter.
    pub fn to_ll(&self) -> (r: i32)
        ensures
            r == hinting_code(*self),
    {
        match self {
            Hinting::Normal => TTF_HINTING_NORMAL,
            Hinting::Light => TTF_HINTING_LIGHT,
            Hinting::Mono => TTF_HINTING_MONO,
            Hinting::NoHinting => TTF_HINTING_NONE,
        }
    }

    /// The setting that the native getter's code stands for.
    pub fn from_ll(code: i32) -> (r: Hinting)
        ensures
            r == hinting_of_code(code),
    {
        if code == TTF_HINTING_NORMAL {
            Hinting::Normal
        } else if code == TTF_HINTING_LIGHT {
            Hinting::Light
        } else if code == TTF_HINTING_MONO {
            Hinting::Mono
        } else {
            Hinting::NoHinting
        }
    }
}

/// A setting written to the native library reads back as the same setting.
pub proof fn lemma_hinting_round_trip(h: Hinting)
    ensures
        hinting_of_code(hinting_code(h)) == h,
{
}

/// Distinct settings have distinct native codes.
pub proof fn lemma_hinting_code_injective(a: Hinting, b: Hinting)
    ensures
        hinting_code(a) == hinting_code(b) ==> a == b,
{
}

} // verus!
