//! Input that the host hands to an app: touches and keys, and where they go.

use vstd::prelude::*;

use crate::view_registry;
use crate::view_registry::{ViewHandle, ViewRegistry};

verus! {

/// The class of the view that the engine draws into.
pub const RBX_SURFACE_VIEW_CLASS: &'static str = "com.roblox.client.RBXSurfaceView";

/// The format of the engine's window: eight bits for each of red, green, blue and
/// alpha.
pub const WINDOW_FORMAT_RGBA_8888: i32 = 1;

/// What a finger, or the pointer for it, does.
#[derive(Debug, Clone, Copy, PartialEq, Eq, Structural)]
pub enum MotionAction {
    Down,
    Up,
    Move,
}

impl MotionAction {
    /// The number of the action in Java.
    pub open spec fn spec_code(self) -> i32 {
        match self {
            MotionAction::Down => 0,
            MotionAction::Up => 1,
            MotionAction::Move => 2,
        }
    }

    /// The number of the action in Java.
    pub fn code(self) -> (code: i32)
        ensures
            code == self.spec_code(),
            self == MotionAction::Down ==> code == 0,
            self == MotionAction::Up ==> code == 1,
            self == MotionAction::Move ==> code == 2,
    {
        match self {
            MotionAction::Down => 0,
            MotionAction::Up => 1,
            MotionAction::Move => 2,
        }
    }
}

/// What a key does.
#[derive(Debug, Clone, Copy, PartialEq, Eq, Structural)]
pub enum KeyAction {
    Down,
    Up,
}

impl KeyAction {
    /// The number of the action in Java.
    pub open spec fn spec_code(self) -> i32 {
        match self {
            KeyAction::Down => 0,
            KeyAction::Up => 1,
        }
    }

    /// The number of the action in Java.
    pub fn code(self) -> (code: i32)
        ensures
            code == self.spec_code(),
            self == KeyAction::Down ==> code == 0,
            self == KeyAction::Up ==> code == 1,
    {
        match self {
            KeyAction::Down => 0,
            KeyAction::Up => 1,
        }
    }

    /// Whether the key goes down.
    pub fn is_down(self) -> (b: bool)
        ensures
            b == (self == KeyAction::Down),
    {
        match self {
            KeyAction::Down => true,
            KeyAction::Up => false,
        }
    }
}

/// What became of a touch: whether the engine took it, and when the gesture that it
/// belongs to began.
#[derive(Debug, Clone, Copy, PartialEq, Eq, Structural)]
pub struct EngineTouchOutcome {
    pub consumed: bool,
    pub down_time_ms: i64,
}

/// The view that the engine draws into, where there is one.
pub fn engine_surface_view_handle(views: &ViewRegistry) -> (handle: Option<ViewHandle>)
    requires
        views.wf(),
    ensures
        handle == view_registry::view_of_class(views.views@, RBX_SURFACE_VIEW_CLASS@),
        handle == view_registry::view_of_class(
            views.views@,
            "com.roblox.client.RBXSurfaceView"@,
        ),
{
    view_registry::find_by_class(views, RBX_SURFACE_VIEW_CLASS)
}

/// How far a touch got on its way to the engine.
#[derive(Debug, Clone, Copy, PartialEq, Eq, Structural)]
pub enum SurfaceTouch {
    /// There is no view, or none that could be handed the touch.
    NotDelivered,
    /// The view was handed the touch at a time, and said whether it took it.
    Delivered(i64, bool),
}

/// When a gesture began: when its first touch did, which is now where this is the
/// first.
pub open spec fn down_time(first_down: Option<i64>, now: i64) -> i64 {
    match first_down {
        Some(t) => t,
        None => now,
    }
}

/// The times of a touch: when its gesture began, and when it happened.
pub fn touch_times(first_down: Option<i64>, now: i64) -> (times: (i64, i64))
    ensures
        times == (down_time(first_down, now), now),
        times.1 == now,
        first_down is None ==> times.0 == now,
        first_down matches Some(t) ==> times.0 == t,
{
    match first_down {
        Some(t) => (t, now),
        None => (now, now),
    }
}

/// What became of a touch. One that nobody was handed was not taken, and tells no
/// time but the one that was known.
pub fn engine_touch_outcome(first_down: Option<i64>, touch: SurfaceTouch) -> (outcome:
    EngineTouchOutcome)
    ensures
        outcome == (match touch {
            SurfaceTouch::NotDelivered => EngineTouchOutcome {
                consumed: false,
                down_time_ms: down_time(first_down, 0),
            },
            SurfaceTouch::Delivered(now, consumed) => EngineTouchOutcome {
                consumed,
                down_time_ms: down_time(first_down, now),
            },
        }),
{
    match touch {
        SurfaceTouch::NotDelivered => EngineTouchOutcome {
            consumed: false,
            down_time_ms: touch_times(first_down, 0).0,
        },
        SurfaceTouch::Delivered(now, consumed) => EngineTouchOutcome {
            consumed,
            down_time_ms: touch_times(first_down, now).0,
        },
    }
}

/// What came of asking the Java object of a view.
pub enum PeerReply<E> {
    /// The view is not live.
    NotLive,
    /// The view has no object.
    NoObject,
    Answered(Result<bool, E>),
}

/// What a view answered, which is no where it could not be asked.
pub fn peer_answer<E>(reply: PeerReply<E>) -> (answer: Result<bool, E>)
    ensures
        match reply {
            PeerReply::Answered(a) => answer == a,
            _ => answer == Ok::<bool, E>(false),
        },
{
    match reply {
        PeerReply::Answered(answer) => answer,
        PeerReply::NoObject => Ok(false),
        PeerReply::NotLive => Ok(false),
    }
}

/// Something that a surface's view is told.
#[derive(Debug, Clone, Copy, PartialEq, Eq, Structural)]
pub enum SurfaceEvent {
    Created,
    /// The format, the width and the height of the surface.
    Changed(i32, i32, i32),
}

/// Whether the app waits for the surface: someone hears of it.
pub fn surface_ready(listeners: i32) -> (b: bool)
    ensures
        b == (listeners > 0),
{
    listeners > 0
}

/// What a surface's view is told when there is a surface, in order; nothing where
/// nobody hears of it.
pub fn surface_events(listeners: i32, width: i32, height: i32) -> (events: Vec<SurfaceEvent>)
    ensures
        events@ == (if listeners > 0 {
            seq![
                SurfaceEvent::Created,
                SurfaceEvent::Changed(WINDOW_FORMAT_RGBA_8888, width, height),
            ]
        } else {
            Seq::empty()
        }),
        listeners > 0 ==> events@.len() == 2 && events@[0] == SurfaceEvent::Created && events@[1]
            == SurfaceEvent::Changed(1, width, height),
{
    let mut events: Vec<SurfaceEvent> = Vec::new();
    if surface_ready(listeners) {
        events.push(SurfaceEvent::Created);
        events.push(SurfaceEvent::Changed(WINDOW_FORMAT_RGBA_8888, width, height));
    }
    events
}

/// How the end of a surface went: nobody heard of it, or the first error of those
/// that did, or well.
pub fn surface_destroyed<E>(listeners: usize, first_error: Option<E>) -> (result: Result<bool, E>)
    ensures
        result == (if listeners == 0 {
            Ok(false)
        } else {
            match first_error {
                Some(e) => Err(e),
                None => Ok(true),
            }
        }),
{
    if listeners == 0 {
        return Ok(false);
    }
    match first_error {
        Some(e) => Err(e),
        None => Ok(true),
    }
}

/// Whether the bits of a single-precision number are those of a rate at which a
/// display can refresh: more than zero, and finite.
pub open spec fn is_rate(bits: u32) -> bool {
    0 < bits < 0x7f80_0000
}

/// Those of the rates at which a display can refresh, in their order.
pub open spec fn rates_in(bits: Seq<u32>) -> Seq<u32>
    decreases bits.len(),
{
    if bits.len() == 0 {
        Seq::empty()
    } else {
        let front = rates_in(bits.drop_last());
        if is_rate(bits.last()) {
            front.push(bits.last())
        } else {
            front
        }
    }
}

/// The rates that the engine is told, given as the bits of single-precision numbers:
/// the present one, where it is a rate, and those that the display has. It is told
/// nothing where the display has none.
pub fn refresh_rates(current: Option<u32>, supported: &[u32]) -> (told: Option<
    (Option<u32>, Vec<u32>),
>)
    ensures
        match told {
            None => rates_in(supported@).len() == 0,
            Some((now, rates)) => {
                &&& rates_in(supported@).len() > 0
                &&& rates@ == rates_in(supported@)
                &&& now == (match current {
                    Some(bits) => if is_rate(bits) {
                        Some(bits)
                    } else {
                        None
                    },
                    None => None,
                })
            },
        },
{
    let mut rates: Vec<u32> = Vec::new();
    let mut i: usize = 0;
    assert(supported@.take(0) =~= Seq::empty());
    while i < supported.len()
        invariant
            i <= supported@.len(),
            rates@ == rates_in(supported@.take(i as int)),
        decreases supported@.len() - i,
    {
        let bits: u32 = supported[i];
        assert(supported@.take(i + 1).drop_last() =~= supported@.take(i as int));
        if 0 < bits && bits < 0x7f80_0000 {
            rates.push(bits);
        }
        i += 1;
    }
    assert(supported@.take(supported@.len() as int) =~= supported@);
    if rates.len() == 0 {
        return None;
    }
    let now = match current {
        Some(bits) => if 0 < bits && bits < 0x7f80_0000 {
            Some(bits)
        } else {
            None
        },
        None => None,
    };
    Some((now, rates))
}

/// A gesture keeps the time at which it began: the time that its first touch gives
/// back is the time of every later touch.
pub proof fn law_gesture_keeps_its_beginning(first: i64, later: i64)
    ensures
        down_time(Some(down_time(None, first)), later) == first,
{
}

/// Two actions have different numbers.
pub proof fn law_codes_name_their_actions(a: MotionAction, b: MotionAction)
    ensures
        a.spec_code() == b.spec_code() ==> a == b,
{
}

/// The rates that are told are those that are positive and finite, all of them and in their
/// order: a rate behind the others is told behind the others, and anything else is left out.
pub proof fn law_rates_are_told_in_order(bits: Seq<u32>, next: u32)
    ensures
        rates_in(Seq::<u32>::empty()) == Seq::<u32>::empty(),
        0 < next < 0x7f80_0000 ==> rates_in(bits.push(next)) == rates_in(bits).push(next),
        next == 0 || next >= 0x7f80_0000 ==> rates_in(bits.push(next)) == rates_in(bits),
        is_rate(next) <==> next / 0x8000_0000 == 0 && next != 0 && next / 0x80_0000 != 0xFF,
{
    assert(bits.push(next).drop_last() =~= bits);
}

} // verus!
