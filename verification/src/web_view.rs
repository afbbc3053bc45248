//! Web views: the size at which one is created, and the steps that open one without
//! an app's doing.

use vstd::prelude::*;

use crate::view_registry;
use crate::view_registry::{ViewHandle, ViewRegistry};

verus! {

/// The width of a web view where nothing tells it.
pub const DEFAULT_WIDTH: u16 = 1024;

/// The height of a web view where nothing tells it.
pub const DEFAULT_HEIGHT: u16 = 768;

/// The page on which an account signs in.
pub const ROBLOX_LOGIN_URL: &'static str = "https://www.roblox.com/login";

/// A length in pixels as the web engine takes it.
pub open spec fn clamped(v: int) -> u16 {
    if v < 1 {
        1
    } else if v > u16::MAX {
        u16::MAX
    } else {
        v as u16
    }
}

fn clamp_dim(v: i32) -> (d: u16)
    ensures
        d == clamped(v as int),
        d == (if v < 1 {
            1int
        } else if v > 65_535 {
            65_535
        } else {
            v as int
        }),
{
    if v < 1 {
        1
    } else if v > 65_535 {
        65_535
    } else {
        v as u16
    }
}

/// The frame of a view where it was laid out: left, top, right, bottom.
pub open spec fn frame_of(registry: ViewRegistry, widget: ViewHandle) -> Option<[i32; 4]> {
    if registry.views@.live(widget) {
        registry.views@.value(widget).frame
    } else {
        None
    }
}

/// Whether a frame has an inside.
pub open spec fn has_area(frame: [i32; 4]) -> bool {
    frame[2] > frame[0] && frame[3] > frame[1]
}

/// The size at which a web view is created: that of its frame, else that of the
/// window, else the default.
pub open spec fn create_dims(frame: Option<[i32; 4]>, window: Option<(i32, i32)>) -> (u16, u16) {
    match frame {
        Some(f) if has_area(f) => (clamped(f[2] - f[0]), clamped(f[3] - f[1])),
        _ => match window {
            Some((w, h)) => if w > 0 && h > 0 {
                (clamped(w as int), clamped(h as int))
            } else {
                (DEFAULT_WIDTH, DEFAULT_HEIGHT)
            },
            None => (DEFAULT_WIDTH, DEFAULT_HEIGHT),
        },
    }
}

/// The size at which a web view is created. `window` is the size of the window that
/// the app draws into, where there is one.
pub fn web_view_create_dims(
    registry: &ViewRegistry,
    widget: ViewHandle,
    window: Option<(i32, i32)>,
) -> (dims: (u16, u16))
    requires
        registry.wf(),
        match frame_of(*registry, widget) {
            Some(f) => has_area(f) ==> f[2] - f[0] <= i32::MAX && f[3] - f[1] <= i32::MAX,
            None => true,
        },
    ensures
        dims == create_dims(frame_of(*registry, widget), window),
        dims.0 >= 1 && dims.1 >= 1,
{
    if let Ok(view) = registry.views.get(widget) {
        if let Some(frame) = view.frame {
            if frame[2] > frame[0] && frame[3] > frame[1] {
                return (clamp_dim(frame[2] - frame[0]), clamp_dim(frame[3] - frame[1]));
            }
        }
    }
    if let Some((w, h)) = window {
        if w > 0 && h > 0 {
            return (clamp_dim(w), clamp_dim(h));
        }
    }
    (DEFAULT_WIDTH, DEFAULT_HEIGHT)
}

/// What a web view that no app opens is for.
#[derive(Debug, Clone, Copy, PartialEq, Eq, Structural)]
pub enum DirectWebViewMode {
    /// Trying the web engine out, with a probe that notes what happens and an object
    /// that pages can call.
    Smoke,
    /// Signing an account in.
    RobloxLogin,
}

/// A step that opens a web view.
#[derive(Debug, Clone, Copy, PartialEq, Eq, Structural)]
pub enum DirectStep {
    RegisterWebViewNatives,
    RegisterCookieManagerNatives,
    /// Makes the object without running its constructor.
    AllocateObject,
    /// Gives it a view and keeps the object with it.
    AllocateView,
    /// Tells the object its view.
    SetWidgetField,
    /// Makes the object that is told of loads, and hands it in.
    SetProbeClient,
    SetPlainClient,
    /// Lets pages call the probe.
    AddProbeInterface,
    LoadUrl,
}

/// The steps that open a web view, in order.
pub open spec fn direct_steps(mode: DirectWebViewMode) -> Seq<DirectStep> {
    match mode {
        DirectWebViewMode::Smoke => seq![
            DirectStep::RegisterWebViewNatives,
            DirectStep::RegisterCookieManagerNatives,
            DirectStep::AllocateObject,
            DirectStep::AllocateView,
            DirectStep::SetWidgetField,
            DirectStep::SetProbeClient,
            DirectStep::AddProbeInterface,
            DirectStep::LoadUrl,
        ],
        DirectWebViewMode::RobloxLogin => seq![
            DirectStep::RegisterWebViewNatives,
            DirectStep::RegisterCookieManagerNatives,
            DirectStep::AllocateObject,
            DirectStep::AllocateView,
            DirectStep::SetWidgetField,
            DirectStep::SetPlainClient,
            DirectStep::LoadUrl,
        ],
    }
}

/// The steps that open a web view, in order. The first that fails ends it.
pub fn direct_webview_steps(mode: DirectWebViewMode) -> (steps: Vec<DirectStep>)
    ensures
        steps@ == direct_steps(mode),
        mode == DirectWebViewMode::Smoke ==> steps@ == seq![
            DirectStep::RegisterWebViewNatives,
            DirectStep::RegisterCookieManagerNatives,
            DirectStep::AllocateObject,
            DirectStep::AllocateView,
            DirectStep::SetWidgetField,
            DirectStep::SetProbeClient,
            DirectStep::AddProbeInterface,
            DirectStep::LoadUrl,
        ],
        mode == DirectWebViewMode::RobloxLogin ==> steps@ == seq![
            DirectStep::RegisterWebViewNatives,
            DirectStep::RegisterCookieManagerNatives,
            DirectStep::AllocateObject,
            DirectStep::AllocateView,
            DirectStep::SetWidgetField,
            DirectStep::SetPlainClient,
            DirectStep::LoadUrl,
        ],
{
    let mut steps: Vec<DirectStep> = Vec::new();
    steps.push(DirectStep::RegisterWebViewNatives);
    steps.push(DirectStep::RegisterCookieManagerNatives);
    steps.push(DirectStep::AllocateObject);
    steps.push(DirectStep::AllocateView);
    steps.push(DirectStep::SetWidgetField);
    match mode {
        DirectWebViewMode::Smoke => {
            steps.push(DirectStep::SetProbeClient);
            steps.push(DirectStep::AddProbeInterface);
        },
        DirectWebViewMode::RobloxLogin => {
            steps.push(DirectStep::SetPlainClient);
        },
    }
    steps.push(DirectStep::LoadUrl);
    steps
}

/// Whether a step comes before another.
pub open spec fn comes_before(steps: Seq<DirectStep>, a: DirectStep, b: DirectStep) -> bool {
    exists|i: int, j: int|
        0 <= i < j < steps.len() && #[trigger] steps[i] == a && #[trigger] steps[j] == b
}

/// The step that says who is told of a load.
pub open spec fn client_step(mode: DirectWebViewMode) -> DirectStep {
    match mode {
        DirectWebViewMode::Smoke => DirectStep::SetProbeClient,
        DirectWebViewMode::RobloxLogin => DirectStep::SetPlainClient,
    }
}

/// The page is loaded last: the view has its object, and who is told of the load is
/// known. Pages can call the probe where the web engine is tried out, and only
/// there.
pub proof fn law_load_comes_last(mode: DirectWebViewMode)
    ensures
        direct_steps(mode).last() == DirectStep::LoadUrl,
        comes_before(direct_steps(mode), DirectStep::AllocateView, DirectStep::SetWidgetField),
        comes_before(direct_steps(mode), DirectStep::SetWidgetField, DirectStep::LoadUrl),
        comes_before(direct_steps(mode), client_step(mode), DirectStep::LoadUrl),
        direct_steps(mode).contains(DirectStep::AddProbeInterface) <==> mode
            == DirectWebViewMode::Smoke,
{
    let steps = direct_steps(mode);
    assert(steps[5] == client_step(mode));
    assert(steps[3] == DirectStep::AllocateView && steps[4] == DirectStep::SetWidgetField);
    assert(steps[steps.len() - 1] == DirectStep::LoadUrl);
    if mode == DirectWebViewMode::Smoke {
        assert(steps[6] == DirectStep::AddProbeInterface);
    }
}

/// The user agent that an app asks for.
pub enum UserAgentRequest {
    /// The one that web views have by themselves.
    Default,
    /// A text that could not be read.
    Unreadable,
    Text(String),
}

/// Gives web views the user agent that an app asks for. One that could not be read
/// leaves the present one.
pub fn set_user_agent(current: &mut Option<String>, request: UserAgentRequest)
    ensures
        *final(current) == (match request {
            UserAgentRequest::Default => None,
            UserAgentRequest::Unreadable => *old(current),
            UserAgentRequest::Text(ua) => Some(ua),
        }),
{
    match request {
        UserAgentRequest::Default => {
            *current = None;
        },
        UserAgentRequest::Unreadable => {},
        UserAgentRequest::Text(ua) => {
            *current = Some(ua);
        },
    }
}

/// A web view is created at the size of its frame where that has an inside, else at
/// the size of the window where there is one, else at 1024 by 768. No length is below
/// one or past 65535.
pub proof fn law_size_comes_from_the_frame_first(
    left: i32,
    top: i32,
    right: i32,
    bottom: i32,
    w: i32,
    h: i32,
)
    ensures
        ({
            let frame = Some([left, top, right, bottom]);
            let window = Some((w, h));
            let inside = left < right && top < bottom;
            &&& inside && right - left <= 65_535 && bottom - top <= 65_535 ==> create_dims(
                frame,
                window,
            ) == (((right - left) as u16), ((bottom - top) as u16))
            &&& inside && right - left > 65_535 ==> create_dims(frame, window).0 == 65_535
            &&& inside && bottom - top > 65_535 ==> create_dims(frame, window).1 == 65_535
            &&& inside ==> create_dims(frame, window) == create_dims(frame, None)
            &&& !inside ==> create_dims(frame, window) == create_dims(None, window)
                && create_dims(frame, None) == create_dims(None, None)
            &&& 0 < w <= 65_535 && 0 < h <= 65_535 ==> create_dims(None, window) == (
                (w as u16),
                (h as u16),
            )
            &&& w > 65_535 && h > 0 ==> create_dims(None, window).0 == 65_535
            &&& w > 0 && h > 65_535 ==> create_dims(None, window).1 == 65_535
            &&& w <= 0 || h <= 0 ==> create_dims(None, window) == (1024u16, 768u16)
            &&& create_dims(None, None) == (1024u16, 768u16)
        }),
{
    let f = [left, top, right, bottom];
    assert(f[0] == left && f[1] == top && f[2] == right && f[3] == bottom);
    assert(has_area(f) == (left < right && top < bottom));
}

/// Only a view that is there has a frame, and it is the one it was laid out to.
pub proof fn law_frame_is_that_of_the_view(registry: ViewRegistry, widget: ViewHandle)
    ensures
        registry.views@.live(widget) ==> frame_of(registry, widget) == registry.views@.value(
            widget,
        ).frame,
        !registry.views@.live(widget) ==> frame_of(registry, widget) is None,
{
}

} // verus!
