//! Verified core of a binding to the SDL2_ttf font library.
//!
//! The native calls themselves live with the application; this crate holds the
//! decisions made around them: the initialization guard, the ownership and
//! release of native font handles, and the interpretation of the values that
//! the native library hands back.

mod color;
mod context;
mod font;
mod glyph;
mod hinting;
mod style;

pub use color::{channels, color_to_c_color, CColor, Color, OPAQUE};
pub use context::{
    has_been_initialized, init_check, init_finish, initialized, InitError, Sdl2TtfContext,
};
pub use font::{
    closes_over, lemma_borrowed_never_closed, lemma_closed_at_most_once,
    lemma_never_closed_after_release, release_closes, Font,
};
pub use glyph::{
    glyph_code, glyph_code_of, glyph_index, glyph_metrics, is_c_string_safe, text_size,
    GlyphMetrics,
};
pub use hinting::{
    hinting_code, hinting_of_code, lemma_hinting_code_injective, lemma_hinting_round_trip,
    Hinting, TTF_HINTING_LIGHT, TTF_HINTING_MONO, TTF_HINTING_NONE, TTF_HINTING_NORMAL,
};
pub use style::{
    lemma_insert_contains, lemma_remove_excludes, lemma_truncate_idempotent, FontStyle, TTF_STYLE_BOLD, TTF_STYLE_ITALIC, TTF_STYLE_MASK, TTF_STYLE_STRIKETHROUGH,
    TTF_STYLE_UNDERLINE,
};
