use sdl2_ttf::{
    color_to_c_color, glyph_code, glyph_index, glyph_metrics, has_been_initialized,
    init_check, init_finish, is_c_string_safe, text_size, CColor, Color, Font, FontStyle,
    GlyphMetrics, Hinting, InitError, TTF_HINTING_LIGHT, TTF_HINTING_MONO, TTF_HINTING_NONE,
    TTF_HINTING_NORMAL,
};

#[test]
fn style_flags_have_native_bits() {
    assert_eq!(FontStyle::normal().bits(), 0);
    assert_eq!(FontStyle::bold().bits(), 1);
    assert_eq!(FontStyle::italic().bits(), 2);
    assert_eq!(FontStyle::underline().bits(), 4);
    assert_eq!(FontStyle::strikethrough().bits(), 8);
    assert_eq!(FontStyle::all().bits(), 15);
}

#[test]
fn style_from_bits_truncate_drops_unknown_bits() {
    assert_eq!(FontStyle::from_bits_truncate(0x13).bits(), 3);
    assert_eq!(FontStyle::from_bits_truncate(-1).bits(), 15);
    assert!(FontStyle::from_bits_truncate(16).is_empty());
}

#[test]
fn style_from_bits_refuses_unknown_bits() {
    assert_eq!(FontStyle::from_bits(5).map(|s| s.bits()), Some(5));
    assert!(FontStyle::from_bits(32).is_none());
}

#[test]
fn style_set_operations() {
    let mut s = FontStyle::bold();
    s.insert(FontStyle::italic());
    assert_eq!(s.bits(), 3);
    assert!(s.contains(FontStyle::bold()));
    assert!(!s.contains(FontStyle::underline()));
    s.remove(FontStyle::bold());
    assert_eq!(s, FontStyle::italic());
    let u = FontStyle::underline().union(FontStyle::strikethrough());
    assert_eq!(u.bits(), 12);
    assert_eq!(u.intersection(FontStyle::underline()).bits(), 4);
}

#[test]
fn hinting_codes() {
    assert_eq!(Hinting::Normal.to_ll(), TTF_HINTING_NORMAL);
    assert_eq!(Hinting::Light.to_ll(), 1);
    assert_eq!(Hinting::Mono.to_ll(), 2);
    assert_eq!(Hinting::NoHinting.to_ll(), 3);
    assert_eq!(Hinting::from_ll(TTF_HINTING_LIGHT), Hinting::Light);
    assert_eq!(Hinting::from_ll(TTF_HINTING_MONO), Hinting::Mono);
    assert_eq!(Hinting::from_ll(TTF_HINTING_NONE), Hinting::NoHinting);
    assert_eq!(Hinting::from_ll(0), Hinting::Normal);
}

#[test]
fn hinting_unknown_code_reads_as_no_hinting() {
    assert_eq!(Hinting::from_ll(7), Hinting::NoHinting);
    assert_eq!(Hinting::from_ll(-1), Hinting::NoHinting);
}

#[test]
fn hinting_round_trip() {
    for h in [Hinting::Normal, Hinting::Light, Hinting::Mono, Hinting::NoHinting] {
        assert_eq!(Hinting::from_ll(h.to_ll()), h);
    }
}

#[test]
fn opaque_color_gets_full_alpha() {
    assert_eq!(
        color_to_c_color(Color::RGB(1, 2, 3)),
        CColor { r: 1, g: 2, b: 3, a: 255 }
    );
    assert_eq!(
        color_to_c_color(Color::RGBA(9, 8, 7, 6)),
        CColor { r: 9, g: 8, b: 7, a: 6 }
    );
}

#[test]
fn glyph_code_keeps_low_sixteen_bits() {
    assert_eq!(glyph_code('A'), 65);
    assert_eq!(glyph_code('\u{FFFF}'), 0xFFFF);
    assert_eq!(glyph_code('\u{1F600}'), 0xF600);
}

#[test]
fn glyph_index_zero_means_missing() {
    assert_eq!(glyph_index(0), None);
    assert_eq!(glyph_index(42), Some(42));
}

#[test]
fn glyph_metrics_on_status() {
    assert_eq!(glyph_metrics(-1, 1, 2, 3, 4, 5), None);
    assert_eq!(
        glyph_metrics(0, 1, 9, -2, 11, 10),
        Some(GlyphMetrics { minx: 1, maxx: 9, miny: -2, maxy: 11, advance: 10 })
    );
}

#[test]
fn text_size_on_status() {
    assert_eq!(text_size(0, 120, 18), Some((120, 18)));
    assert_eq!(text_size(-1, 120, 18), None);
}

#[test]
fn c_string_safety() {
    assert!(is_c_string_safe(b"hello"));
    assert!(is_c_string_safe(b""));
    assert!(!is_c_string_safe(b"he\0llo"));
    assert!(!is_c_string_safe(b"\0"));
}

#[test]
fn owned_font_closes_once_while_initialized() {
    let mut f: Font<Vec<u8>> = Font::from_ll(0x1000, true);
    assert_eq!(f.handle(), 0x1000);
    assert!(f.is_owned());
    assert!(!f.is_released());
    assert!(f.release(true));
    assert!(f.is_released());
    assert!(!f.release(true));
}

#[test]
fn font_not_closed_after_library_shutdown() {
    let mut f: Font<Vec<u8>> = Font::from_ll(0x1000, true);
    assert!(!f.release(false));
    assert!(!f.release(true));
}

#[test]
fn borrowed_font_never_closed() {
    let mut f: Font<Vec<u8>> = Font::from_ll(0x1000, false);
    assert!(!f.release(true));
}

#[test]
fn opened_font_keeps_its_source() {
    assert!(Font::<Vec<u8>>::opened(0, Some(vec![1, 2])).is_none());
    let mut f = Font::opened(0x2000, Some(vec![1u8, 2, 3])).unwrap();
    assert_eq!(f.handle(), 0x2000);
    assert!(f.is_owned());
    assert!(f.release(true));
    assert_eq!(f.source(), &Some(vec![1u8, 2, 3]));
}

#[test]
fn init_refused_when_already_initialized() {
    assert!(has_been_initialized(1));
    assert!(!has_been_initialized(0));
    assert!(matches!(init_check(1), Err(InitError::AlreadyInitializedError)));
    assert!(init_check(0).is_ok());
}

#[test]
fn init_finish_on_status() {
    assert!(init_finish(0, std::io::Error::from_raw_os_error(2)).is_ok());
    match init_finish(-1, std::io::Error::from_raw_os_error(2)) {
        Err(InitError::InitializationError(e)) => assert_eq!(e.raw_os_error(), Some(2)),
        _ => panic!("expected an initialization error"),
    }
}

#[test]
fn init_error_texts() {
    let e = InitError::AlreadyInitializedError;
    assert_eq!(e.description(), "SDL2_TTF has already been initialized");
    assert!(e.cause().is_none());
    assert_eq!(e.to_string(), "SDL2_TTF has already been initialized");
    let e = InitError::InitializationError(std::io::Error::from_raw_os_error(2));
    assert_eq!(e.cause().and_then(|c| c.raw_os_error()), Some(2));
    assert!(!e.description().is_empty());
}

#[test]
fn style_insert_then_remove() {
    let mut s = FontStyle::normal();
    s.insert(FontStyle::underline());
    assert!(s.contains(FontStyle::underline()));
    s.remove(FontStyle::underline());
    assert!(!s.contains(FontStyle::underline()));
    let t = FontStyle::from_bits_truncate(0x7F);
    assert_eq!(FontStyle::from_bits_truncate(t.bits()), t);
}
