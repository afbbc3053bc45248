use framework::canvas_registry::{
    allocate, argb_channels, fills, strokes, with_canvas, CanvasRegistry, CanvasRegistryError,
    Verb,
};
use framework::bridge::{plan_kind, ArgKind};
use framework::json::JsonKind;
use framework::paint_registry::{PaintRegistryError, PaintStyle};
use framework::resources::package_id;
use framework::text::{
    chars_of, contains, is_whitespace, last_position, parse_i64, parse_u64, part, position, same,
    same_ignoring_case, same_str, split, split_lines, split_words, starts_with, string_of,
    to_lower, trim,
};
use framework::text_edit::{len_utf16, utf16_cursor_char_offset};
use framework::typed_value::type_id;

fn strings(parts: Vec<Vec<char>>) -> Vec<String> {
    parts.iter().map(|p| string_of(p)).collect()
}

#[test]
fn texts_are_taken_apart() {
    let s = chars_of("  one two\u{2003}three ");
    assert_eq!(string_of(&trim(&s)), "one two\u{2003}three");
    assert_eq!(strings(split_words(&s)), ["one", "two", "three"]);
    assert_eq!(strings(split(&chars_of("a;;b"), ';')), ["a", "", "b"]);
    assert_eq!(strings(split(&chars_of(""), ';')), [""]);
    assert_eq!(
        strings(split_lines(&chars_of("x\r\ny\n\nz"))),
        ["x", "y", "", "z"]
    );
    assert_eq!(strings(split_lines(&chars_of("x\n"))), ["x"]);
    assert_eq!(string_of(&part(&chars_of("hello"), 1, 3)), "el");
    assert_eq!(position(&chars_of("a=b=c"), '=', 2), 3);
    assert_eq!(position(&chars_of("abc"), '=', 0), 3);
    assert_eq!(last_position(&chars_of("a=b=c"), '='), Some(3));
    assert_eq!(last_position(&chars_of("abc"), '='), None);
}

#[test]
fn texts_are_compared() {
    assert!(same(&chars_of("ab"), &chars_of("ab")));
    assert!(!same(&chars_of("ab"), &chars_of("abc")));
    assert!(same_str("é", "é"));
    assert!(starts_with(&chars_of("assets/x"), &chars_of("assets/")));
    assert!(!starts_with(&chars_of("asset"), &chars_of("assets/")));
    assert!(contains(&chars_of("http://x"), &chars_of("://")));
    assert!(!contains(&chars_of("http:/x"), &chars_of("://")));
    assert!(same_ignoring_case(&chars_of("Max-AGE"), &chars_of("max-age")));
    assert_eq!(to_lower('Q'), 'q');
    assert_eq!(to_lower('É'), 'É', "only ASCII letters have another case here");
    assert!(is_whitespace('\u{3000}'));
    assert!(!is_whitespace('\u{200b}'));
}

#[test]
fn numbers_are_read() {
    assert_eq!(parse_u64(&chars_of("18446744073709551615")), Some(u64::MAX));
    assert_eq!(parse_u64(&chars_of("18446744073709551616")), None);
    assert_eq!(parse_u64(&chars_of("+7")), Some(7));
    assert_eq!(parse_u64(&chars_of("")), None);
    assert_eq!(parse_u64(&chars_of("+")), None);
    assert_eq!(parse_u64(&chars_of("-1")), None);
    assert_eq!(parse_i64(&chars_of("-9223372036854775808")), Some(i64::MIN));
    assert_eq!(parse_i64(&chars_of("9223372036854775808")), None);
    assert_eq!(parse_i64(&chars_of("+12")), Some(12));
    assert_eq!(parse_i64(&chars_of("1a")), None);
}

#[test]
fn code_units_are_counted() {
    assert_eq!(len_utf16('a'), 1);
    assert_eq!(len_utf16('💫'), 2);
    let s = chars_of("a💫b");
    assert_eq!(utf16_cursor_char_offset(&s, 0), (0, 0));
    assert_eq!(utf16_cursor_char_offset(&s, 2), (1, 1), "within a character");
    assert_eq!(utf16_cursor_char_offset(&s, 3), (2, 3));
    assert_eq!(utf16_cursor_char_offset(&s, 99), (3, 4));
    assert_eq!(utf16_cursor_char_offset(&s, -5), (0, 0));
}

#[test]
fn colors_and_ids_have_their_parts() {
    assert_eq!(argb_channels(0x8012_3456u32 as i32), (0x12, 0x34, 0x56, 0x80));
    assert!(fills(PaintStyle::FillAndStroke) && strokes(PaintStyle::FillAndStroke));
    assert!(fills(PaintStyle::Fill) && !strokes(PaintStyle::Fill));
    assert!(!fills(PaintStyle::Stroke) && strokes(PaintStyle::Stroke));
    assert_eq!(Verb::CubicTo.point_count(), 3);
    assert_eq!(package_id(0x7f01_0203), 0x7f);
    assert_eq!(type_id(0x7f01_0203), 1);
    assert_eq!(plan_kind(JsonKind::Bool, "java.lang.Object"), ArgKind::BoolBox);
}

#[test]
fn a_canvas_can_be_drawn_on_from_outside() {
    let mut canvases = CanvasRegistry::new();
    let canvas = allocate(&mut canvases, 2, 1).expect("a canvas");
    with_canvas(&mut canvases, canvas, |c| {
        c.pixmap_mut().fill(tiny_skia::Color::from_rgba8(1, 2, 3, 255));
    })
    .expect("drawn");
    let (size, bytes) =
        with_canvas(&mut canvases, canvas, |c| (c.dimensions(), c.rgba())).expect("read");
    assert_eq!(size, (2, 1));
    assert_eq!(bytes, [1, 2, 3, 255, 1, 2, 3, 255]);
    with_canvas(&mut canvases, canvas, |c| c.draw_color(0x00ff_ffff)).expect("drawn");
    let clear = with_canvas(&mut canvases, canvas, |c| c.rgba()).expect("read");
    assert_eq!(clear, [0; 8], "no alpha, no color");
}

#[test]
fn registries_say_why() {
    assert_eq!(
        CanvasRegistryError::BadDimensions.message(),
        "canvas backing dimensions are zero or exceed the maximum"
    );
    assert_eq!(
        PaintRegistryError::StaleHandle.message(),
        "paint handle refers to a freed slot (stale generation)"
    );
}
