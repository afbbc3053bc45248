//! The text field that the host's keyboard goes to: which one it is, where its
//! cursor stands, and what the engine said of it.

use vstd::prelude::*;

use crate::resources;
use crate::text_edit;
use crate::view_registry;
use crate::view_registry::{ViewRegistry, ViewState};

verus! {

/// The font that the engine shows code in.
pub const ROBLOX_CODE_FONT: i32 = 10;

/// How long a pointer press may wait for the session that it opens, in
/// nanoseconds.
pub const TEXT_POINTER_LIFETIME_NS: u64 = 250_000_000;

/// The input type of a field that nothing is known of.
pub const UNKNOWN_INPUT_TYPE: i32 = i32::MIN;

/// What the engine said of the focused text field. The font size is held as the
/// bits of a single-precision number.
#[derive(Clone, Copy, Debug, PartialEq, Eq)]
pub struct TextboxSession {
    pub widget: i64,
    /// The left and top edge, the width and the height.
    pub geometry: (i32, i32, u32, u32),
    pub input_type: i32,
    pub font: i32,
    pub font_size_bits: u32,
    pub multiline: bool,
    pub text_wrapped: bool,
    pub text_color: i32,
    pub x_alignment: i32,
    pub y_alignment: i32,
}

/// Where and when the pointer was pressed. The coordinates are held as the bits of
/// single-precision numbers.
#[derive(Clone, Copy, Debug, PartialEq, Eq)]
pub struct PendingTextPointer {
    pub position: (u32, u32),
    pub recorded_at_ns: u64,
}

/// The active text field, zero where there is none, and what belongs to it.
#[derive(Clone, Copy, Debug, PartialEq, Eq)]
pub struct TextFieldState {
    pub active: i64,
    /// The field whose whole text is selected, zero where none is.
    pub selection_all: i64,
    /// The cursor, counted in UTF-16 code units.
    pub cursor_utf16: i64,
    pub pending_pointer: Option<PendingTextPointer>,
    pub session: Option<TextboxSession>,
}

impl TextFieldState {
    /// No field is active.
    pub open spec fn idle() -> Self {
        TextFieldState {
            active: 0,
            selection_all: 0,
            cursor_utf16: 0,
            pending_pointer: None,
            session: None,
        }
    }

    /// Whether a session belongs to a field.
    pub open spec fn session_is_of(session: Option<TextboxSession>, widget: i64) -> bool {
        session is Some && widget != 0 && session->0.widget == widget
    }

    /// Whether the engine's last word is about a field.
    pub open spec fn live_session(self, widget: i64) -> bool {
        Self::session_is_of(self.session, widget)
    }

    /// Where the field of the session lies.
    pub open spec fn geometry(self) -> Option<(i32, i32, u32, u32)> {
        match self.session {
            Some(session) => Some(session.geometry),
            None => None,
        }
    }

    /// What kind of input the field of the session takes.
    pub open spec fn input_type(self) -> i32 {
        match self.session {
            Some(session) => session.input_type,
            None => UNKNOWN_INPUT_TYPE,
        }
    }

    /// Whether the active field is known to hold several lines.
    pub open spec fn accepts_line_breaks(self) -> bool {
        self.live_session(self.active) && self.session->0.multiline
    }

    /// Whether the whole text of a field is selected.
    pub open spec fn selected(self, widget: i64) -> bool {
        widget != 0 && self.selection_all == widget
    }

    /// A state in which no field is active.
    pub fn new() -> (state: Self)
        ensures
            state == Self::idle(),
            state.active == 0 && state.selection_all == 0 && state.cursor_utf16 == 0,
            state.pending_pointer is None && state.session is None,
    {
        TextFieldState {
            active: 0,
            selection_all: 0,
            cursor_utf16: 0,
            pending_pointer: None,
            session: None,
        }
    }
}

/// The active text field, zero where there is none.
pub fn active_text_field(state: &TextFieldState) -> (widget: i64)
    ensures
        widget == state.active,
{
    state.active
}

/// Makes no field active and forgets all that belongs to the one that was.
/// Returns whether there was one.
pub fn clear_active_text_field(state: &mut TextFieldState) -> (was_active: bool)
    ensures
        was_active == (old(state).active != 0),
        *final(state) == TextFieldState::idle(),
        final(state).active == 0 && final(state).selection_all == 0 && final(state).cursor_utf16
            == 0,
        final(state).pending_pointer is None && final(state).session is None,
{
    let was_active = state.active != 0;
    *state = TextFieldState::new();
    was_active
}

/// Forgets what the engine said of the active field and what is selected in it;
/// the field stays active. Returns whether there is one.
pub fn invalidate_active_text_field_session(state: &mut TextFieldState) -> (is_active: bool)
    ensures
        is_active == (old(state).active != 0),
        *final(state) == (if is_active {
            TextFieldState { selection_all: 0, session: None, ..*old(state) }
        } else {
            *old(state)
        }),
{
    if state.active == 0 {
        return false;
    }
    state.selection_all = 0;
    state.session = None;
    true
}

/// Selects the whole text of the active field. Returns whether there is one.
pub fn select_all_active_text_field(state: &mut TextFieldState) -> (is_active: bool)
    ensures
        is_active == (old(state).active != 0),
        *final(state) == (if is_active {
            TextFieldState { selection_all: old(state).active, ..*old(state) }
        } else {
            *old(state)
        }),
{
    if state.active == 0 {
        return false;
    }
    state.selection_all = state.active;
    true
}

/// Makes no field active where `widget` is the active one.
pub fn clear_active_text_field_if(state: &mut TextFieldState, widget: i64)
    ensures
        *final(state) == (if widget != 0 && old(state).active == widget {
            TextFieldState::idle()
        } else {
            *old(state)
        }),
{
    if widget != 0 && state.active == widget {
        *state = TextFieldState::new();
    }
}

/// Where the field of the session lies.
pub fn textbox_geometry(state: &TextFieldState) -> (geometry: Option<(i32, i32, u32, u32)>)
    ensures
        geometry == state.geometry(),
        geometry is Some <==> state.session is Some,
        state.session is Some ==> geometry == Some(state.session->0.geometry),
{
    match state.session {
        Some(session) => Some(session.geometry),
        None => None,
    }
}

/// What kind of input the field of the session takes, the smallest number where
/// there is no session.
pub fn textbox_input_type(state: &TextFieldState) -> (input_type: i32)
    ensures
        input_type == state.input_type(),
        state.session is Some ==> input_type == state.session->0.input_type,
        state.session is None ==> input_type == -0x8000_0000,
{
    match state.session {
        Some(session) => session.input_type,
        None => UNKNOWN_INPUT_TYPE,
    }
}

/// Whether a session belongs to the active field.
pub fn textbox_session_matches_active(session: TextboxSession, active_widget: i64) -> (b: bool)
    ensures
        b == TextFieldState::session_is_of(Some(session), active_widget),
        b == (active_widget != 0 && session.widget == active_widget),
{
    active_widget != 0 && session.widget == active_widget
}

/// Whether the engine's last word is about a field.
pub fn has_live_textbox_session(state: &TextFieldState, widget: i64) -> (b: bool)
    ensures
        b == state.live_session(widget),
        b == (state.session is Some && widget != 0 && state.session->0.widget == widget),
{
    match state.session {
        Some(session) => textbox_session_matches_active(session, widget),
        None => false,
    }
}

/// Whether the active field is known to hold several lines.
pub fn active_text_field_accepts_line_breaks(state: &TextFieldState) -> (b: bool)
    ensures
        b == state.accepts_line_breaks(),
        b == (state.active != 0 && state.session is Some && state.session->0.widget == state.active
            && state.session->0.multiline),
{
    match state.session {
        Some(session) => textbox_session_matches_active(session, state.active)
            && session.multiline,
        None => false,
    }
}

/// Records what the engine said. A new session takes the pointer press that
/// waited for it; the press is given back where it is not too old, for the cursor
/// to be moved to it.
pub fn record_textbox_session(
    state: &mut TextFieldState,
    session: Option<TextboxSession>,
    now_ns: u64,
) -> (pointer: Option<(u32, u32)>)
    ensures
        session is None ==> pointer is None && *final(state) == (TextFieldState {
            session: None,
            ..*old(state)
        }),
        session is Some ==> {
            &&& *final(state) == (TextFieldState { session, pending_pointer: None, ..*old(state) })
            &&& pointer == (match old(state).pending_pointer {
                Some(p) => if now_ns <= p.recorded_at_ns + TEXT_POINTER_LIFETIME_NS {
                    Some(p.position)
                } else {
                    None
                },
                None => None,
            })
            &&& pointer is Some <==> old(state).pending_pointer is Some && now_ns <= old(
                state,
            ).pending_pointer->0.recorded_at_ns + 250_000_000
        },
{
    state.session = session;
    if session.is_none() {
        return None;
    }
    let pending: Option<PendingTextPointer> = state.pending_pointer;
    state.pending_pointer = None;
    match pending {
        Some(p) => {
            if now_ns <= p.recorded_at_ns || now_ns - p.recorded_at_ns <= TEXT_POINTER_LIFETIME_NS {
                Some(p.position)
            } else {
                None
            }
        },
        None => None,
    }
}

/// Moves the cursor to where the pointer was found to point, in the field of a
/// session. Nothing happens where that field is not the active one or the pointer
/// points nowhere in its text.
pub fn update_active_text_cursor_from_pointer(
    state: &mut TextFieldState,
    session: TextboxSession,
    pointed: Option<i32>,
) -> (moved: bool)
    ensures
        moved == (old(state).active == session.widget && pointed is Some),
        *final(state) == (if moved {
            TextFieldState { cursor_utf16: pointed->0 as i64, ..*old(state) }
        } else {
            *old(state)
        }),
{
    if state.active != session.widget {
        return false;
    }
    match pointed {
        Some(cursor) => {
            state.cursor_utf16 = cursor as i64;
            true
        },
        None => false,
    }
}

/// Records a pointer press and gives back the live session of the active field,
/// for the cursor to be moved to the press.
pub fn record_pointer_press(state: &mut TextFieldState, position: (u32, u32), now_ns: u64) -> (live:
    Option<TextboxSession>)
    ensures
        *final(state) == (TextFieldState {
            pending_pointer: Some(PendingTextPointer { position, recorded_at_ns: now_ns }),
            ..*old(state)
        }),
        live == (if old(state).live_session(old(state).active) {
            old(state).session
        } else {
            None
        }),
{
    state.pending_pointer = Some(PendingTextPointer { position, recorded_at_ns: now_ns });
    match state.session {
        Some(session) => {
            if textbox_session_matches_active(session, state.active) {
                Some(session)
            } else {
                None
            }
        },
        None => None,
    }
}

/// Records a pointer press before the engine hears of it. `pointed` is where in the
/// text of the active field it points, where that can be told: the cursor goes there
/// while the field's session is live. The session is then asked for again. Returns
/// whether a field is active.
pub fn prepare_text_field_pointer_press(
    state: &mut TextFieldState,
    position: (u32, u32),
    now_ns: u64,
    pointed: Option<i32>,
) -> (is_active: bool)
    ensures
        is_active == (old(state).active != 0),
        *final(state) == (TextFieldState {
            pending_pointer: Some(PendingTextPointer { position, recorded_at_ns: now_ns }),
            cursor_utf16: if old(state).live_session(old(state).active) && pointed is Some {
                pointed->0 as i64
            } else {
                old(state).cursor_utf16
            },
            selection_all: if is_active {
                0
            } else {
                old(state).selection_all
            },
            session: if is_active {
                None
            } else {
                old(state).session
            },
            ..*old(state)
        }),
{
    if let Some(session) = record_pointer_press(state, position, now_ns) {
        update_active_text_cursor_from_pointer(state, session, pointed);
    }
    invalidate_active_text_field_session(state)
}

/// What is shown over the active field.
#[derive(Debug)]
pub struct ActiveTextOverlay {
    pub text: String,
    pub geometry: (i32, i32, u32, u32),
    pub input_type: i32,
    pub font_size_bits: u32,
    pub multiline: bool,
    pub text_wrapped: bool,
    pub text_color: i32,
    pub x_alignment: i32,
    pub y_alignment: i32,
}

/// What is shown over the active field: nothing without a live session, in a
/// color without alpha, or where the field has no text.
pub fn active_text_overlay(state: &TextFieldState, views: &ViewRegistry) -> (overlay: Option<
    ActiveTextOverlay,
>)
    requires
        views.wf(),
    ensures
        ({
            let shown = state.live_session(state.active) && !(0 <= state.session->0.text_color
                < 0x100_0000) && view_registry::text_of(views.views@, state.active) is Some;
            &&& (overlay is Some) == shown
            &&& shown ==> {
                let session = state.session->0;
                let o = overlay->0;
                &&& Some(o.text@) == view_registry::text_of(views.views@, state.active)
                &&& o.geometry == session.geometry
                &&& o.input_type == session.input_type
                &&& o.font_size_bits == session.font_size_bits
                &&& o.multiline == session.multiline
                &&& o.text_wrapped == session.text_wrapped
                &&& o.text_color == session.text_color
                &&& o.x_alignment == session.x_alignment
                &&& o.y_alignment == session.y_alignment
            }
        }),
{
    let session: TextboxSession = match state.session {
        Some(session) => session,
        None => {
            return None;
        },
    };
    if !textbox_session_matches_active(session, state.active) || (0 <= session.text_color
        && session.text_color < 0x100_0000) {
        return None;
    }
    match view_registry::get_text(views, session.widget) {
        Some(text) => Some(
            ActiveTextOverlay {
                text,
                geometry: session.geometry,
                input_type: session.input_type,
                font_size_bits: session.font_size_bits,
                multiline: session.multiline,
                text_wrapped: session.text_wrapped,
                text_color: session.text_color,
                x_alignment: session.x_alignment,
                y_alignment: session.y_alignment,
            },
        ),
        None => None,
    }
}

/// What to do before the engine is asked of the focused field.
#[derive(Clone, Copy, Debug, PartialEq, Eq, Structural)]
pub enum TextboxQuery {
    /// There is nothing to ask.
    Done,
    /// Ask the engine of its focused field, for this widget.
    Ask(i64),
}

/// Starts a query. Without an active field the session is forgotten; a live
/// session is not asked for again.
pub fn begin_textbox_query(state: &mut TextFieldState) -> (query: TextboxQuery)
    ensures
        old(state).active == 0 ==> query == TextboxQuery::Done && *final(state) == (
        TextFieldState { session: None, ..*old(state) }),
        old(state).active != 0 && old(state).live_session(old(state).active) ==> query
            == TextboxQuery::Done && *final(state) == *old(state),
        old(state).active != 0 && !old(state).live_session(old(state).active) ==> query
            == TextboxQuery::Ask(old(state).active) && *final(state) == *old(state),
{
    let widget: i64 = state.active;
    if widget == 0 {
        state.session = None;
        return TextboxQuery::Done;
    }
    if has_live_textbox_session(state, widget) {
        return TextboxQuery::Done;
    }
    TextboxQuery::Ask(widget)
}

/// What the engine says of its focused field. Sizes come both as the bits of
/// single-precision numbers and cut off to whole pixels.
#[derive(Clone, Copy, Debug, PartialEq, Eq)]
pub struct TextboxInfo {
    pub geometry: (i32, i32, u32, u32),
    pub width_bits: u32,
    pub height_bits: u32,
    pub font_size_bits: u32,
    pub font: i32,
    pub input_type: i32,
    pub multiline: bool,
    pub text_wrapped: bool,
    pub text_color: i32,
    pub x_alignment: i32,
    pub y_alignment: i32,
}

/// How the engine answered.
#[derive(Clone, Copy, Debug, PartialEq, Eq)]
pub enum TextboxReply {
    /// It could not be asked.
    Unavailable,
    /// No field is focused.
    NoField,
    /// A field is focused, and not all of it could be read.
    Unreadable,
    /// A field is focused.
    Info(TextboxInfo),
}

/// Whether the bits are those of a single-precision number above zero, infinity
/// among them.
pub open spec fn is_positive(bits: u32) -> bool {
    0 < bits <= 0x7F80_0000
}

/// Whether the bits are those of a finite single-precision number above zero.
pub open spec fn is_finite_positive(bits: u32) -> bool {
    0 < bits < 0x7F80_0000
}

/// Whether a field has a size that text can be shown in.
pub open spec fn info_ok(info: TextboxInfo) -> bool {
    is_positive(info.width_bits) && is_positive(info.height_bits) && is_finite_positive(
        info.font_size_bits,
    )
}

/// The session that an answer opens.
pub open spec fn session_of(widget: i64, info: TextboxInfo) -> TextboxSession {
    TextboxSession {
        widget,
        geometry: info.geometry,
        input_type: info.input_type,
        font: info.font,
        font_size_bits: info.font_size_bits,
        multiline: info.multiline,
        text_wrapped: info.text_wrapped,
        text_color: info.text_color,
        x_alignment: info.x_alignment,
        y_alignment: info.y_alignment,
    }
}

/// Ends a query for a field with the engine's answer. An answer that no field is
/// focused makes the field inactive; one that cannot be used, or that comes when
/// another field is active, forgets the session. Gives back the pointer press
/// that waited for the session that was opened.
pub fn finish_textbox_query(
    state: &mut TextFieldState,
    widget: i64,
    reply: TextboxReply,
    now_ns: u64,
) -> (pointer: Option<(u32, u32)>)
    ensures
        reply is Unavailable ==> pointer is None && *final(state) == *old(state),
        reply is NoField ==> pointer is None && *final(state) == (if widget != 0
            && old(state).active == widget {
            TextFieldState::idle()
        } else {
            *old(state)
        }),
        reply is Unreadable ==> pointer is None && *final(state) == (TextFieldState {
            session: None,
            ..*old(state)
        }),
        reply matches TextboxReply::Info(info) ==> {
            let opened = info_ok(info) && old(state).active == widget;
            &&& !opened ==> pointer is None && *final(state) == (TextFieldState {
                session: None,
                ..*old(state)
            })
            &&& opened ==> {
                &&& *final(state) == (TextFieldState {
                    session: Some(session_of(widget, info)),
                    pending_pointer: None,
                    ..*old(state)
                })
                &&& pointer == (match old(state).pending_pointer {
                    Some(p) => if now_ns <= p.recorded_at_ns + TEXT_POINTER_LIFETIME_NS {
                        Some(p.position)
                    } else {
                        None
                    },
                    None => None,
                })
            }
        },
{
    match reply {
        TextboxReply::Unavailable => None,
        TextboxReply::NoField => {
            clear_active_text_field_if(state, widget);
            None
        },
        TextboxReply::Unreadable => record_textbox_session(state, None, now_ns),
        TextboxReply::Info(info) => {
            let width_ok = 0 < info.width_bits && info.width_bits <= 0x7F80_0000;
            let height_ok = 0 < info.height_bits && info.height_bits <= 0x7F80_0000;
            let font_ok = 0 < info.font_size_bits && info.font_size_bits < 0x7F80_0000;
            if width_ok && height_ok && font_ok && state.active == widget {
                let session = TextboxSession {
                    widget,
                    geometry: info.geometry,
                    input_type: info.input_type,
                    font: info.font,
                    font_size_bits: info.font_size_bits,
                    multiline: info.multiline,
                    text_wrapped: info.text_wrapped,
                    text_color: info.text_color,
                    x_alignment: info.x_alignment,
                    y_alignment: info.y_alignment,
                };
                record_textbox_session(state, Some(session), now_ns)
            } else {
                record_textbox_session(state, None, now_ns)
            }
        },
    }
}

/// The cursor as an `int` of Java.
pub open spec fn cursor_int(cursor: i64) -> i32 {
    if cursor < 0 {
        0
    } else if cursor > i32::MAX {
        i32::MAX
    } else {
        cursor as i32
    }
}

/// A text, empty where there is none.
pub open spec fn text_or_empty(t: Option<Seq<char>>) -> Seq<char> {
    match t {
        Some(t) => t,
        None => Seq::empty(),
    }
}

/// Types a character or a backspace into the active field: its text is edited at
/// the cursor, a selection of everything is used up, and the new text and cursor
/// are given back for the engine. Nothing is given back without an active field
/// with a live session; a field whose view is gone becomes inactive.
pub fn type_into_active_text_field(
    state: &mut TextFieldState,
    views: &mut ViewRegistry,
    unicode: i32,
    backspace: bool,
) -> (edited: Option<(String, i32)>)
    requires
        old(views).wf(),
    ensures
        final(views).wf(),
        ({
            let widget = old(state).active;
            let ready = widget != 0 && old(state).live_session(widget);
            let live = old(views).views@.live(widget);
            let e = text_edit::edit(
                text_or_empty(view_registry::text_of(old(views).views@, widget)),
                cursor_int(old(state).cursor_utf16),
                text_edit::typed(unicode),
                backspace,
                old(state).selected(widget),
            );
            &&& !ready ==> edited is None && *final(state) == *old(state)
                && final(views).same_as(*old(views))
            &&& ready && !live ==> edited is None && *final(state) == TextFieldState::idle()
                && final(views).same_as(*old(views))
            &&& ready && live ==> {
                &&& edited is Some
                &&& ({
                    let (new_text, new_cursor) = edited->0;
                    new_text@ == e.text && new_cursor == e.cursor
                })
                &&& final(state).cursor_utf16 == e.cursor
                &&& *final(state) == (TextFieldState {
                    cursor_utf16: final(state).cursor_utf16,
                    selection_all: if old(state).selected(widget) {
                        0
                    } else {
                        old(state).selection_all
                    },
                    ..*old(state)
                })
                &&& ViewRegistry::view_changed(*old(views), *final(views), widget)
                &&& final(views).views@.value(widget) == (ViewState {
                    text: final(views).views@.value(widget).text,
                    ..old(views).views@.value(widget)
                })
                &&& view_registry::text_of(final(views).views@, widget) == Some(e.text)
            }
        }),
{
    let widget: i64 = state.active;
    if widget == 0 || !has_live_textbox_session(state, widget) {
        return None;
    }
    let old_text = match views.views.get(widget) {
        Ok(view) => match &view.text {
            Some(s) => s.clone(),
            None => String::new(),
        },
        Err(_) => {
            clear_active_text_field_if(state, widget);
            return None;
        },
    };
    assert(old_text@ =~= text_or_empty(view_registry::text_of(views.views@, widget)));
    let cursor: i32 = if state.cursor_utf16 < 0 {
        0
    } else if state.cursor_utf16 > i32::MAX as i64 {
        i32::MAX
    } else {
        state.cursor_utf16 as i32
    };
    let replace_all: bool = state.selection_all == widget;
    if replace_all {
        state.selection_all = 0;
    }
    let (new_text, new_cursor) = text_edit::apply_text_edit_at_utf16(
        old_text.as_str(),
        cursor,
        unicode,
        backspace,
        replace_all,
    );
    let stored = new_text.clone();
    view_registry::set_text(views, widget, Some(stored));
    state.cursor_utf16 = new_cursor as i64;
    Some((new_text, new_cursor))
}

fn same_text(a: &Option<String>, b: &Option<String>) -> (r: bool)
    ensures
        r == (resources::optional_text(*a) == resources::optional_text(*b)),
{
    match (a, b) {
        (Some(a), Some(b)) => crate::text::same_str(a.as_str(), b.as_str()),
        (None, None) => true,
        _ => false,
    }
}

/// Sets the text of a view. Where it changes the text of the active field, the
/// cursor goes to its end. Returns whether there is such a view.
pub fn set_widget_text(
    state: &mut TextFieldState,
    views: &mut ViewRegistry,
    widget: i64,
    value: Option<String>,
) -> (known: bool)
    requires
        old(views).wf(),
    ensures
        final(views).wf(),
        known == old(views).views@.live(widget),
        !known ==> *final(state) == *old(state) && final(views).same_as(*old(views)),
        known ==> {
            let before = view_registry::text_of(old(views).views@, widget);
            let after = resources::optional_text(value);
            &&& ViewRegistry::view_changed(*old(views), *final(views), widget)
            &&& final(views).views@.value(widget) == (ViewState {
                text: value,
                ..old(views).views@.value(widget)
            })
            &&& view_registry::text_of(final(views).views@, widget) == after
            &&& *final(state) == (if before != after && old(state).active == widget {
                TextFieldState {
                    cursor_utf16: text_edit::capped(
                        text_edit::utf16_len(text_or_empty(after)),
                    ) as i64,
                    ..*old(state)
                }
            } else {
                *old(state)
            })
        },
{
    let changed = match views.views.get(widget) {
        Ok(view) => !same_text(&view.text, &value),
        Err(_) => {
            return false;
        },
    };
    if changed && state.active == widget {
        let end: i32 = match &value {
            Some(s) => text_edit::java_cursor_position(s.as_str()),
            None => 0,
        };
        state.cursor_utf16 = end as i64;
    }
    view_registry::set_text(views, widget, value)
}

/// Reads the text of a field and makes it the active one. The cursor of a field
/// that was not active goes to the end of its text; that of the active field is
/// only kept within it.
pub fn get_edit_text(state: &mut TextFieldState, views: &ViewRegistry, widget: i64) -> (text:
    String)
    requires
        views.wf(),
    ensures
        text@ == text_or_empty(view_registry::text_of(views.views@, widget)),
        ({
            let end = text_edit::capped(text_edit::utf16_len(text@)) as i64;
            *final(state) == (TextFieldState {
                active: widget,
                cursor_utf16: if old(state).active != widget || end < old(state).cursor_utf16 {
                    end
                } else {
                    old(state).cursor_utf16
                },
                ..*old(state)
            })
        }),
{
    let previous: i64 = state.active;
    state.active = widget;
    let text = match view_registry::get_text(views, widget) {
        Some(text) => text,
        None => String::new(),
    };
    assert(text@ =~= text_or_empty(view_registry::text_of(views.views@, widget)));
    let end: i64 = text_edit::java_cursor_position(text.as_str()) as i64;
    if previous != widget || end < state.cursor_utf16 {
        state.cursor_utf16 = end;
    }
    text
}

/// What the log may show of a text: how many characters it has, never the text.
pub fn chars_for_log(value: Option<&str>) -> (count: usize)
    ensures
        count == (match value {
            Some(s) => s@.len(),
            None => 0,
        }),
{
    match value {
        Some(s) => crate::text::chars_of(s).len(),
        None => 0,
    }
}

/// What is known of a field does not outlive it. Once no field is active,
/// there is no geometry, no input type, no selection, no line breaks and no press
/// that waits, and the cursor is back at the beginning.
pub proof fn law_nothing_outlives_the_field(widget: i64)
    ensures
        TextFieldState::idle().active == 0,
        !TextFieldState::idle().live_session(widget),
        TextFieldState::idle().geometry() is None,
        TextFieldState::idle().input_type() == UNKNOWN_INPUT_TYPE,
        !TextFieldState::idle().selected(widget),
        !TextFieldState::idle().accepts_line_breaks(),
        TextFieldState::idle().pending_pointer is None,
        TextFieldState::idle().cursor_utf16 == 0,
        TextFieldState::idle().selection_all == 0,
        TextFieldState::idle().session is None,
        TextFieldState::idle().input_type() == -0x8000_0000,
{
}

/// The session of one field never speaks for another.
pub proof fn law_session_speaks_for_one_field(state: TextFieldState, a: i64, b: i64)
    requires
        state.live_session(a),
        state.live_session(b),
    ensures
        a == b,
        a != 0,
{
}

/// An answer opens a session where the field is wider and higher than nothing and its
/// font has a finite size above zero. A single-precision number is above zero where its
/// sign bit is clear and some other bit is set, and it is one at all up to the bits of
/// infinity.
pub proof fn law_answer_opens_a_session(widget: i64, info: TextboxInfo)
    ensures
        info_ok(info) <==> info.width_bits != 0 && info.width_bits <= 0x7F80_0000
            && info.height_bits != 0 && info.height_bits <= 0x7F80_0000 && info.font_size_bits != 0
            && info.font_size_bits < 0x7F80_0000,
        session_of(widget, info).widget == widget,
        session_of(widget, info).geometry == info.geometry,
        session_of(widget, info).input_type == info.input_type,
        session_of(widget, info).font == info.font,
        session_of(widget, info).font_size_bits == info.font_size_bits,
        session_of(widget, info).multiline == info.multiline,
        session_of(widget, info).text_wrapped == info.text_wrapped,
        session_of(widget, info).text_color == info.text_color,
        session_of(widget, info).x_alignment == info.x_alignment,
        session_of(widget, info).y_alignment == info.y_alignment,
{
}

/// A field is typed into where it is known of: its session names it, it is selected as a
/// whole where the selection names it, and zero is no field.
pub proof fn law_field_is_known_by_its_handle(state: TextFieldState, widget: i64)
    ensures
        state.live_session(widget) <==> widget != 0 && state.session is Some
            && state.session->0.widget == widget,
        state.selected(widget) <==> widget != 0 && state.selection_all == widget,
        state.accepts_line_breaks() <==> state.active != 0 && state.session is Some
            && state.session->0.widget == state.active && state.session->0.multiline,
{
}

/// The cursor is handed to Java as it is where that can hold it, and as the nearest number
/// that it can hold else, but never below zero. A field without a text is edited as an
/// empty one.
pub proof fn law_cursor_and_text_are_handed_on(cursor: i64, t: Seq<char>)
    ensures
        0 <= cursor <= 0x7FFF_FFFF ==> cursor_int(cursor) == cursor,
        cursor < 0 ==> cursor_int(cursor) == 0,
        cursor > 0x7FFF_FFFF ==> cursor_int(cursor) == 0x7FFF_FFFF,
        text_or_empty(Some(t)) == t,
        text_or_empty(None).len() == 0,
{
}

} // verus!
