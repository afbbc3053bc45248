use framework::input::{KeyAction, MotionAction};
use framework::text_edit::{apply_text_edit_at_utf16, java_cursor_position, typed_char};
use framework::text_field::{
    active_text_field, active_text_field_accepts_line_breaks, active_text_overlay,
    begin_textbox_query, chars_for_log, clear_active_text_field, clear_active_text_field_if,
    finish_textbox_query, get_edit_text, has_live_textbox_session,
    prepare_text_field_pointer_press,
    invalidate_active_text_field_session, record_pointer_press, record_textbox_session,
    select_all_active_text_field, set_widget_text, textbox_geometry, textbox_input_type,
    textbox_session_matches_active, type_into_active_text_field,
    update_active_text_cursor_from_pointer, TextFieldState, TextboxInfo, TextboxQuery,
    TextboxReply, TextboxSession, ROBLOX_CODE_FONT,
};
use framework::text_pointer::{cursor_at, shows_code};
use framework::view_registry::{allocate, free, get_text, set_text, ViewRegistry};

fn session(widget: i64, geometry: (i32, i32, u32, u32), input_type: i32) -> TextboxSession {
    TextboxSession {
        widget,
        geometry,
        input_type,
        font: 39,
        font_size_bits: 18.0f32.to_bits(),
        multiline: false,
        text_wrapped: false,
        text_color: -1,
        x_alignment: 0,
        y_alignment: 1,
    }
}

#[test]
fn record_textbox_session_invalidates_geometry_and_input_type_together() {
    let mut state = TextFieldState::new();
    record_textbox_session(&mut state, Some(session(41, (10, 20, 300, 40), 5)), 0);
    assert_eq!(textbox_geometry(&state), Some((10, 20, 300, 40)));
    assert_eq!(textbox_input_type(&state), 5);

    record_textbox_session(&mut state, None, 0);
    assert_eq!(textbox_geometry(&state), None);
    assert_eq!(
        textbox_input_type(&state),
        i32::MIN,
        "the mask must not outlive the session that justified it"
    );

    record_textbox_session(&mut state, Some(session(42, (181, 149, 438, 46), 7)), 0);
    assert_eq!(textbox_input_type(&state), 7);
    record_textbox_session(&mut state, None, 0);
    assert_eq!(textbox_geometry(&state), None);
    assert_eq!(textbox_input_type(&state), i32::MIN);

    let username = session(42, (181, 149, 438, 46), 7);
    assert!(textbox_session_matches_active(username, 42));
    assert!(!textbox_session_matches_active(username, 43));
    assert!(!textbox_session_matches_active(username, 0));

    state.active = 42;
    record_textbox_session(&mut state, Some(username), 0);
    assert!(has_live_textbox_session(&state, 42));
    assert!(clear_active_text_field(&mut state));
    assert_eq!(active_text_field(&state), 0);
    assert!(!has_live_textbox_session(&state, 42));

    let password = session(43, (181, 219, 438, 46), 5);
    state.active = 43;
    record_textbox_session(&mut state, Some(password), 0);
    clear_active_text_field_if(&mut state, 42);
    assert_eq!(active_text_field(&state), 43);
    assert!(has_live_textbox_session(&state, 43));
    assert!(clear_active_text_field(&mut state));
}

#[test]
fn pointer_press_revalidation_preserves_the_active_text_field() {
    let mut state = TextFieldState::new();
    let editor = TextboxSession {
        widget: 44,
        geometry: (54, 10, 720, 280),
        input_type: 0,
        font: ROBLOX_CODE_FONT,
        font_size_bits: 14.0f32.to_bits(),
        multiline: true,
        text_wrapped: false,
        text_color: -1,
        x_alignment: 0,
        y_alignment: 0,
    };
    state.active = 44;
    record_textbox_session(&mut state, Some(editor), 0);
    assert!(active_text_field_accepts_line_breaks(&state));

    assert!(invalidate_active_text_field_session(&mut state));
    assert_eq!(active_text_field(&state), 44);
    assert!(!has_live_textbox_session(&state, 44));
    assert!(clear_active_text_field(&mut state));
}

#[test]
fn native_ui_text_writers_keep_raw_text_out_of_logs() {
    assert_eq!(chars_for_log(Some("hunter2")), 7);
    assert_eq!(chars_for_log(Some("é💫")), 2);
    assert_eq!(chars_for_log(None), 0);
}

#[test]
fn motion_action_codes_match_public_android_constants() {
    assert_eq!(MotionAction::Down.code(), 0, "ACTION_DOWN must be 0");
    assert_eq!(MotionAction::Up.code(), 1, "ACTION_UP must be 1");
}

#[test]
fn key_action_codes_match_public_android_constants() {
    assert_eq!(KeyAction::Down.code(), 0, "KeyEvent.ACTION_DOWN must be 0");
    assert_eq!(KeyAction::Up.code(), 1, "KeyEvent.ACTION_UP must be 1");
}

#[test]
fn host_text_edit_handles_end_cursor_and_invalid_characters() {
    assert_eq!(
        apply_text_edit_at_utf16("", 0, 'a' as i32, false, false),
        ("a".to_string(), 1)
    );
    assert_eq!(
        apply_text_edit_at_utf16("ro", 2, 'b' as i32, false, false),
        ("rob".to_string(), 3)
    );
    assert_eq!(
        apply_text_edit_at_utf16("rob", 3, 0, true, false),
        ("ro".to_string(), 2)
    );
    assert_eq!(
        apply_text_edit_at_utf16("", 0, 0, true, false),
        (String::new(), 0)
    );
    assert_eq!(
        apply_text_edit_at_utf16("ro", 2, 0x1b, false, false),
        ("ro".to_string(), 2)
    );
    assert_eq!(
        apply_text_edit_at_utf16("é", 1, 'x' as i32, false, false),
        ("éx".to_string(), 2)
    );
}

#[test]
fn host_text_edit_uses_the_selected_utf16_cursor() {
    assert_eq!(
        apply_text_edit_at_utf16("print()", 5, 'x' as i32, false, false),
        ("printx()".to_string(), 6)
    );
    assert_eq!(
        apply_text_edit_at_utf16("print()", 5, 0, true, false),
        ("prin()".to_string(), 4)
    );
    assert_eq!(
        apply_text_edit_at_utf16("a💫b", 3, 'x' as i32, false, false),
        ("a💫xb".to_string(), 4)
    );
    assert_eq!(
        apply_text_edit_at_utf16("a💫b", 3, 0, true, false),
        ("ab".to_string(), 1)
    );
}

#[test]
fn select_all_replacement_sets_the_new_utf16_cursor() {
    assert_eq!(
        apply_text_edit_at_utf16("print('old')", 4, 'x' as i32, false, true),
        ("x".to_string(), 1)
    );
    assert_eq!(
        apply_text_edit_at_utf16("éx", 1, 0, true, true),
        (String::new(), 0)
    );
}

#[test]
fn host_text_input_uses_the_apk_non_composing_synchronization_route() {
    let mut state = TextFieldState::new();
    let mut views = ViewRegistry::new();
    let widget = allocate(&mut views, "android.widget.EditText").expect("a view");
    assert_eq!(get_edit_text(&mut state, &views, widget), "");
    assert_eq!(active_text_field(&state), widget);
    assert_eq!(
        type_into_active_text_field(&mut state, &mut views, 'h' as i32, false),
        None,
        "without a live session nothing is typed"
    );
    record_textbox_session(&mut state, Some(session(widget, (0, 0, 100, 20), 0)), 0);
    assert_eq!(
        type_into_active_text_field(&mut state, &mut views, 'h' as i32, false),
        Some(("h".to_string(), 1))
    );
    assert_eq!(
        type_into_active_text_field(&mut state, &mut views, 'i' as i32, false),
        Some(("hi".to_string(), 2))
    );
    assert_eq!(get_text(&views, widget).as_deref(), Some("hi"));
}

#[test]
fn focused_textbox_geometry_is_read_once_without_reflection_marshalling() {
    let mut state = TextFieldState::new();
    state.active = 7;
    assert!(matches!(begin_textbox_query(&mut state), TextboxQuery::Ask(7)));
    record_textbox_session(&mut state, Some(session(7, (1, 2, 3, 4), 0)), 0);
    assert!(matches!(begin_textbox_query(&mut state), TextboxQuery::Done));
}

#[test]
fn java_cursor_position_counts_utf16_code_units() {
    assert_eq!(java_cursor_position("Karma"), 5);
    assert_eq!(java_cursor_position("é"), 1);
    assert_eq!(java_cursor_position("💫"), 2);
}

fn info() -> TextboxInfo {
    TextboxInfo {
        geometry: (5, 6, 70, 8),
        width_bits: 70.5f32.to_bits(),
        height_bits: 8.25f32.to_bits(),
        font_size_bits: 18.0f32.to_bits(),
        font: 39,
        input_type: 3,
        multiline: false,
        text_wrapped: true,
        text_color: -1,
        x_alignment: 2,
        y_alignment: 1,
    }
}

#[test]
fn the_engines_answer_opens_keeps_or_ends_a_session() {
    let mut state = TextFieldState::new();
    state.active = 9;
    assert_eq!(record_pointer_press(&mut state, (11, 12), 1_000_000_000), None);
    assert_eq!(
        finish_textbox_query(&mut state, 9, TextboxReply::Unavailable, 1_100_000_000),
        None
    );
    assert_eq!(
        finish_textbox_query(&mut state, 9, TextboxReply::Info(info()), 1_250_000_000),
        Some((11, 12)),
        "a press that is 250 ms old still counts"
    );
    assert!(has_live_textbox_session(&state, 9));
    assert_eq!(textbox_geometry(&state), Some((5, 6, 70, 8)));
    assert_eq!(textbox_input_type(&state), 3);

    finish_textbox_query(&mut state, 9, TextboxReply::Unreadable, 1_300_000_000);
    assert!(!has_live_textbox_session(&state, 9));
    assert_eq!(active_text_field(&state), 9);

    let mut flat = info();
    flat.height_bits = 0.0f32.to_bits();
    finish_textbox_query(&mut state, 9, TextboxReply::Info(flat), 1_300_000_000);
    assert!(!has_live_textbox_session(&state, 9));
    let mut odd = info();
    odd.font_size_bits = f32::INFINITY.to_bits();
    finish_textbox_query(&mut state, 9, TextboxReply::Info(odd), 1_300_000_000);
    assert!(!has_live_textbox_session(&state, 9));
    let mut unknown = info();
    unknown.width_bits = f32::NAN.to_bits();
    finish_textbox_query(&mut state, 9, TextboxReply::Info(unknown), 1_300_000_000);
    assert!(!has_live_textbox_session(&state, 9));

    finish_textbox_query(&mut state, 8, TextboxReply::NoField, 1_300_000_000);
    assert_eq!(active_text_field(&state), 9, "an answer for another field");
    finish_textbox_query(&mut state, 9, TextboxReply::NoField, 1_300_000_000);
    assert_eq!(active_text_field(&state), 0);
}

#[test]
fn an_old_pointer_press_is_forgotten() {
    let mut state = TextFieldState::new();
    state.active = 9;
    record_pointer_press(&mut state, (1, 2), 1_000_000_000);
    assert_eq!(
        record_textbox_session(&mut state, Some(session(9, (0, 0, 9, 9), 0)), 1_250_000_001),
        None
    );
    let opened_after = |age_ns: u64| {
        let mut state = TextFieldState::new();
        state.active = 9;
        record_pointer_press(&mut state, (1, 2), 1_000_000_000);
        let opened = Some(session(9, (0, 0, 9, 9), 0));
        record_textbox_session(&mut state, opened, 1_000_000_000 + age_ns)
    };
    assert_eq!(opened_after(0), Some((1, 2)));
    assert_eq!(opened_after(250_000_000), Some((1, 2)));
    assert_eq!(opened_after(250_900_000), None);
    assert_eq!(
        record_pointer_press(&mut state, (1, 2), 2_000_000_000),
        Some(session(9, (0, 0, 9, 9), 0))
    );
    assert!(!update_active_text_cursor_from_pointer(
        &mut state,
        session(8, (0, 0, 9, 9), 0),
        Some(4)
    ));
    assert!(!update_active_text_cursor_from_pointer(
        &mut state,
        session(9, (0, 0, 9, 9), 0),
        None
    ));
    assert!(update_active_text_cursor_from_pointer(
        &mut state,
        session(9, (0, 0, 9, 9), 0),
        Some(4)
    ));
    assert_eq!(state.cursor_utf16, 4);
}

#[test]
fn a_selection_of_everything_is_replaced_once() {
    let mut state = TextFieldState::new();
    let mut views = ViewRegistry::new();
    assert!(!select_all_active_text_field(&mut state));
    let widget = allocate(&mut views, "android.widget.EditText").expect("a view");
    assert!(set_text(&mut views, widget, Some("old".to_string())));
    assert_eq!(get_edit_text(&mut state, &views, widget), "old");
    record_textbox_session(&mut state, Some(session(widget, (0, 0, 9, 9), 0)), 0);
    assert!(select_all_active_text_field(&mut state));
    assert_eq!(
        type_into_active_text_field(&mut state, &mut views, 'n' as i32, false),
        Some(("n".to_string(), 1))
    );
    assert_eq!(
        type_into_active_text_field(&mut state, &mut views, 'o' as i32, false),
        Some(("no".to_string(), 2))
    );
    assert_eq!(
        type_into_active_text_field(&mut state, &mut views, 0, true),
        Some(("n".to_string(), 1)),
        "a backspace undoes a typed character"
    );
    assert!(free(&mut views, widget));
    assert_eq!(
        type_into_active_text_field(&mut state, &mut views, 'x' as i32, false),
        None
    );
    assert_eq!(active_text_field(&state), 0, "a field whose view is gone");
}

#[test]
fn the_overlay_shows_the_text_of_the_active_field() {
    let mut state = TextFieldState::new();
    let mut views = ViewRegistry::new();
    let widget = allocate(&mut views, "android.widget.EditText").expect("a view");
    state.active = widget;
    record_textbox_session(&mut state, Some(session(widget, (1, 2, 3, 4), 7)), 0);
    assert!(active_text_overlay(&state, &views).is_none(), "no text yet");
    assert!(set_widget_text(&mut state, &mut views, widget, Some("né".to_string())));
    assert_eq!(state.cursor_utf16, 2);
    let overlay = active_text_overlay(&state, &views).expect("shown");
    assert_eq!(overlay.text, "né");
    assert_eq!(overlay.geometry, (1, 2, 3, 4));
    assert_eq!(overlay.input_type, 7);
    let mut clear = session(widget, (1, 2, 3, 4), 7);
    clear.text_color = 0x00ff_ffff;
    record_textbox_session(&mut state, Some(clear), 0);
    assert!(active_text_overlay(&state, &views).is_none(), "no alpha");
    assert!(!set_widget_text(&mut state, &mut views, 0, None));
}

#[test]
fn only_characters_that_can_be_shown_are_typed() {
    assert_eq!(typed_char('a' as i32), Some('a'));
    assert_eq!(typed_char(0x1b), None);
    assert_eq!(typed_char(0xd800), None);
    assert_eq!(typed_char(-1), None);
    assert_eq!(typed_char(0x1f4ab), Some('💫'));
}

#[test]
fn keys_and_motions_have_their_numbers() {
    assert_eq!(MotionAction::Move.code(), 2);
    assert!(KeyAction::Down.is_down());
    assert!(!KeyAction::Up.is_down());
}

#[test]
fn the_pointer_places_the_cursor_in_a_line() {
    let text = "ab\n💫c\n\nx";
    assert_eq!(cursor_at(text, 0, 0), Some(0));
    assert_eq!(cursor_at(text, 0, 1), Some(1));
    assert_eq!(cursor_at(text, 0, 99), Some(2));
    assert_eq!(cursor_at(text, 1, 1), Some(5));
    assert_eq!(cursor_at(text, 1, 2), Some(6));
    assert_eq!(cursor_at(text, 2, 5), Some(7));
    assert_eq!(cursor_at(text, 3, 1), Some(9));
    assert_eq!(cursor_at(text, 4, 0), Some(9), "there is no such line");
    assert_eq!(cursor_at("", 0, 0), Some(0));
    let mut code = session(1, (0, 0, 9, 9), 0);
    assert!(!shows_code(&code));
    code.font = ROBLOX_CODE_FONT;
    assert!(shows_code(&code));
    code.text_wrapped = true;
    assert!(!shows_code(&code));
}

#[test]
fn a_press_moves_the_cursor_and_asks_for_the_field_again() {
    let mut state = TextFieldState::new();
    assert!(!prepare_text_field_pointer_press(&mut state, (1, 2), 10_000_000, Some(3)));
    assert_eq!(state.cursor_utf16, 0);
    state.active = 5;
    record_textbox_session(&mut state, Some(session(5, (0, 0, 9, 9), 0)), 1_000_000_000);
    assert!(prepare_text_field_pointer_press(&mut state, (1, 2), 1_010_000_000, Some(3)));
    assert_eq!(state.cursor_utf16, 3);
    assert!(!has_live_textbox_session(&state, 5));
    assert_eq!(
        record_textbox_session(&mut state, Some(session(5, (0, 0, 9, 9), 0)), 1_020_000_000),
        Some((1, 2))
    );
}

#[test]
fn a_cursor_before_the_text_edits_at_its_beginning() {
    let (typed, cursor) = apply_text_edit_at_utf16("abc", -7, 'x' as i32, false, false);
    assert_eq!((typed.as_str(), cursor), ("xabc", 1));
    assert_eq!(
        apply_text_edit_at_utf16(&typed, cursor, 0, true, false),
        ("abc".to_string(), 0)
    );
}

#[test]
fn nothing_is_left_of_a_field_that_is_no_longer_active() {
    let mut state = TextFieldState::new();
    state.active = 9;
    state.cursor_utf16 = 4;
    record_pointer_press(&mut state, (1, 2), 10);
    let mut several_lines = session(9, (1, 2, 3, 4), 5);
    several_lines.multiline = true;
    state.session = Some(several_lines);
    assert!(select_all_active_text_field(&mut state));
    assert!(active_text_field_accepts_line_breaks(&state));
    assert!(clear_active_text_field(&mut state));
    assert_eq!(textbox_geometry(&state), None);
    assert_eq!(textbox_input_type(&state), i32::MIN);
    assert!(!active_text_field_accepts_line_breaks(&state));
    assert!(!has_live_textbox_session(&state, 9));
    assert_eq!(state, TextFieldState::new());
}
