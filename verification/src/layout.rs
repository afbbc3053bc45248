//! Measuring and laying out views, and telling who asked to hear of it.

use vstd::prelude::*;

use crate::resources;
use crate::view_registry;
use crate::view_registry::{ViewHandle, ViewRegistry, ViewState};

verus! {

/// A measure spec holds a mode in its two highest bits and a size in the others.
pub const MEASURE_SPEC_MODE_UNIT: u32 = 0x4000_0000;

/// The mode that fixes the size, and the one that bounds it.
pub const MODE_EXACTLY: u32 = 1;

pub const MODE_AT_MOST: u32 = 2;

/// The bits that hold the mode.
pub const MEASURE_SPEC_MODE_MASK: i32 = -0x4000_0000;

/// A measure spec that fixes the size, but for the size itself.
pub const MEASURE_SPEC_EXACTLY: i32 = 0x4000_0000;

/// A measure spec that bounds the size, but for the size itself.
pub const MEASURE_SPEC_AT_MOST: i32 = -0x8000_0000;

/// The most observers that can wait for layouts.
pub const MAX_GLOBAL_LAYOUT_OBSERVERS: usize = 16;

/// The size of the window where it is not known.
pub const DEFAULT_WINDOW_WIDTH: i32 = 800;

pub const DEFAULT_WINDOW_HEIGHT: i32 = 600;

/// The mode of a measure spec.
pub open spec fn spec_mode(measure_spec: i32) -> u32 {
    resources::unsigned(measure_spec) / MEASURE_SPEC_MODE_UNIT
}

/// The size in a measure spec.
pub open spec fn spec_size(measure_spec: i32) -> u32 {
    resources::unsigned(measure_spec) % MEASURE_SPEC_MODE_UNIT
}

/// Whether a measure spec gives a size.
pub open spec fn gives_size(measure_spec: i32) -> bool {
    spec_mode(measure_spec) == MODE_EXACTLY || spec_mode(measure_spec) == MODE_AT_MOST
}

/// The length of a view along one side: the one that the measure spec gives, else
/// the smallest that the view suggests.
pub open spec fn default_size(measure_spec: i32, suggested_minimum: i32) -> int {
    if gives_size(measure_spec) {
        spec_size(measure_spec) as int
    } else {
        suggested_minimum as int
    }
}

/// The length of a view along one side.
pub fn measure_default_size(measure_spec: i32, suggested_minimum: i32) -> (size: i32)
    ensures
        size == default_size(measure_spec, suggested_minimum),
{
    let bits: u32 = resources::i32_to_u32(measure_spec);
    let mode: u32 = bits / MEASURE_SPEC_MODE_UNIT;
    if mode == MODE_EXACTLY || mode == MODE_AT_MOST {
        (bits % MEASURE_SPEC_MODE_UNIT) as i32
    } else {
        suggested_minimum
    }
}

/// Whether a view must be asked for its smallest length.
pub fn needs_suggested_minimum(measure_spec: i32) -> (b: bool)
    ensures
        b == !gives_size(measure_spec),
{
    let mode: u32 = resources::i32_to_u32(measure_spec) / MEASURE_SPEC_MODE_UNIT;
    !(mode == MODE_EXACTLY || mode == MODE_AT_MOST)
}

/// The smallest length of a view as far as it matters: none where the measure spec
/// gives a size, and none where the view did not say.
pub fn suggested_minimum_if_needed(measure_spec: i32, answer: Option<i32>) -> (min: i32)
    ensures
        min == (match answer {
            Some(min) => if gives_size(measure_spec) {
                0
            } else {
                min
            },
            None => 0,
        }),
{
    if !needs_suggested_minimum(measure_spec) {
        return 0;
    }
    match answer {
        Some(min) => min,
        None => 0,
    }
}

/// The width and the height of a view, where the answers are what it says of its
/// smallest lengths.
pub fn measure(
    width_spec: i32,
    height_spec: i32,
    width_answer: Option<i32>,
    height_answer: Option<i32>,
) -> (size: (i32, i32))
    ensures
        size.0 == default_size(
            width_spec,
            match width_answer {
                Some(min) => min,
                None => 0,
            },
        ),
        size.1 == default_size(
            height_spec,
            match height_answer {
                Some(min) => min,
                None => 0,
            },
        ),
{
    let w_min: i32 = suggested_minimum_if_needed(width_spec, width_answer);
    let h_min: i32 = suggested_minimum_if_needed(height_spec, height_answer);
    (measure_default_size(width_spec, w_min), measure_default_size(height_spec, h_min))
}

/// The part of the screen that a window shows: left, top, right, bottom.
pub fn visible_display_frame(window: Option<(i32, i32)>) -> (frame: [i32; 4])
    ensures
        frame@ == (match window {
            Some((w, h)) => seq![0i32, 0i32, w, h],
            None => seq![0i32, 0i32, DEFAULT_WINDOW_WIDTH, DEFAULT_WINDOW_HEIGHT],
        }),
        window is None ==> frame@ == seq![0i32, 0i32, 800i32, 600i32],
{
    let frame: [i32; 4] = match window {
        Some((w, h)) => [0, 0, w, h],
        None => [0, 0, DEFAULT_WINDOW_WIDTH, DEFAULT_WINDOW_HEIGHT],
    };
    assert(frame@ =~= match window {
        Some((w, h)) => seq![0i32, 0i32, w, h],
        None => seq![0i32, 0i32, DEFAULT_WINDOW_WIDTH, DEFAULT_WINDOW_HEIGHT],
    });
    frame
}

/// Who hears of layouts, and whether one happened that it has not heard of.
pub struct GlobalLayoutObserver<O> {
    pub object: O,
    pub pending: bool,
}

/// What is left to do about an observer.
#[derive(Debug, Clone, Copy, PartialEq, Eq, Structural)]
pub enum ObserverUpdate {
    /// Nothing.
    Done,
    /// It is to be added.
    Add,
    /// It cannot be added: there are too many.
    Full,
}

/// Notes that an observer has listeners, or has none any more. `matching` is its
/// place where it is known. One that has listeners hears of the next layout; one
/// that has none is forgotten.
pub fn update_global_layout_observer<O>(
    observers: &mut Vec<GlobalLayoutObserver<O>>,
    matching: Option<usize>,
    have_listeners: bool,
) -> (update: ObserverUpdate)
    requires
        old(observers)@.len() <= MAX_GLOBAL_LAYOUT_OBSERVERS,
        match matching {
            Some(i) => i < old(observers)@.len(),
            None => true,
        },
    ensures
        match matching {
            Some(i) => {
                &&& update == ObserverUpdate::Done
                &&& if have_listeners {
                    final(observers)@ == old(observers)@.update(
                        i as int,
                        (GlobalLayoutObserver {
                            object: old(observers)@[i as int].object,
                            pending: true,
                        }),
                    )
                } else {
                    final(observers)@ == old(observers)@.remove(i as int)
                }
            },
            None => {
                &&& final(observers)@ == old(observers)@
                &&& update == (if !have_listeners {
                    ObserverUpdate::Done
                } else if old(observers)@.len() == MAX_GLOBAL_LAYOUT_OBSERVERS {
                    ObserverUpdate::Full
                } else {
                    ObserverUpdate::Add
                })
            },
        },
        final(observers)@.len() <= MAX_GLOBAL_LAYOUT_OBSERVERS,
        update == ObserverUpdate::Add ==> final(observers)@.len() < MAX_GLOBAL_LAYOUT_OBSERVERS,
        update == ObserverUpdate::Full <==> matching is None && have_listeners && old(
            observers,
        )@.len() == 16,
{
    match matching {
        Some(index) => {
            if have_listeners {
                observers[index].pending = true;
            } else {
                observers.remove(index);
            }
            ObserverUpdate::Done
        },
        None => {
            if !have_listeners {
                ObserverUpdate::Done
            } else if observers.len() == MAX_GLOBAL_LAYOUT_OBSERVERS {
                ObserverUpdate::Full
            } else {
                ObserverUpdate::Add
            }
        },
    }
}

/// Adds an observer, which hears of the next layout.
pub fn add_global_layout_observer<O>(observers: &mut Vec<GlobalLayoutObserver<O>>, object: O)
    requires
        old(observers)@.len() < MAX_GLOBAL_LAYOUT_OBSERVERS,
    ensures
        final(observers)@ == old(observers)@.push(
            (GlobalLayoutObserver { object, pending: true }),
        ),
        final(observers)@.len() <= MAX_GLOBAL_LAYOUT_OBSERVERS,
{
    observers.push(GlobalLayoutObserver { object, pending: true });
}

/// The observers after a layout: all of them are to hear of it.
pub open spec fn all_pending<O>(observers: Seq<GlobalLayoutObserver<O>>) -> Seq<
    GlobalLayoutObserver<O>,
> {
    observers.map_values(
        |o: GlobalLayoutObserver<O>| GlobalLayoutObserver { object: o.object, pending: true },
    )
}

/// Notes that a layout happened.
pub fn mark_global_layout_pending<O>(observers: &mut Vec<GlobalLayoutObserver<O>>)
    ensures
        final(observers)@ == all_pending(old(observers)@),
        final(observers)@.len() == old(observers)@.len(),
        forall|i: int|
            0 <= i < old(observers)@.len() ==> (#[trigger] final(observers)@[i]).pending
                && final(observers)@[i].object == old(observers)@[i].object,
{
    let ghost before = observers@;
    let mut i: usize = 0;
    while i < observers.len()
        invariant
            i <= observers@.len(),
            observers@.len() == before.len(),
            forall|k: int| 0 <= k < i ==> #[trigger] observers@[k] == all_pending(before)[k],
            forall|k: int| i <= k < before.len() ==> #[trigger] observers@[k] == before[k],
        decreases observers@.len() - i,
    {
        observers[i].pending = true;
        i += 1;
    }
    assert(observers@ =~= all_pending(before));
}

/// The observers after those that waited were taken: none waits any more.
pub open spec fn none_pending<O>(observers: Seq<GlobalLayoutObserver<O>>) -> Seq<
    GlobalLayoutObserver<O>,
> {
    observers.map_values(
        |o: GlobalLayoutObserver<O>| GlobalLayoutObserver { object: o.object, pending: false },
    )
}

/// Whether `told` lists exactly the places of the observers that wait to hear of a
/// layout, in ascending order.
pub open spec fn lists_pending<O>(
    told: Seq<usize>,
    observers: Seq<GlobalLayoutObserver<O>>,
) -> bool {
    &&& forall|j: int, k: int| 0 <= j < k < told.len() ==> #[trigger] told[j] < #[trigger] told[k]
    &&& forall|k: int|
        0 <= k < told.len() ==> (#[trigger] told[k]) < observers.len()
            && observers[told[k] as int].pending
    &&& forall|i: int|
        0 <= i < observers.len() && (#[trigger] observers[i]).pending ==> exists|k: int|
            0 <= k < told.len() && #[trigger] told[k] == i
}

/// Takes all observers that wait to hear of a layout, before any of them is told:
/// returns their places, and notes of each that it waits no more.
pub fn take_pending_observers<O>(observers: &mut Vec<GlobalLayoutObserver<O>>) -> (told: Vec<usize>)
    ensures
        lists_pending(told@, old(observers)@),
        final(observers)@ == none_pending(old(observers)@),
        final(observers)@.len() == old(observers)@.len(),
        forall|i: int|
            0 <= i < old(observers)@.len() ==> !(#[trigger] final(observers)@[i]).pending
                && final(observers)@[i].object == old(observers)@[i].object,
        forall|j: int, k: int|
            0 <= j < k < told@.len() ==> #[trigger] told@[j] < #[trigger] told@[k],
        forall|k: int|
            0 <= k < told@.len() ==> (#[trigger] told@[k]) < old(observers)@.len() && old(
                observers,
            )@[told@[k] as int].pending,
        forall|i: int|
            0 <= i < old(observers)@.len() && (#[trigger] old(observers)@[i]).pending ==> exists|
                k: int,
            |
                0 <= k < told@.len() && #[trigger] told@[k] == i,
{
    let ghost before = observers@;
    let mut told: Vec<usize> = Vec::new();
    let mut i: usize = 0;
    while i < observers.len()
        invariant
            i <= observers@.len(),
            observers@.len() == before.len(),
            forall|k: int| 0 <= k < i ==> #[trigger] observers@[k] == none_pending(before)[k],
            forall|k: int| i <= k < before.len() ==> #[trigger] observers@[k] == before[k],
            forall|k: int| 0 <= k < told@.len() ==> (#[trigger] told@[k]) < i,
            lists_pending(told@, before.take(i as int)),
        decreases observers@.len() - i,
    {
        let ghost so_far = told@;
        if observers[i].pending {
            told.push(i);
            observers[i].pending = false;
        }
        proof {
            let longer = before.take(i + 1);
            assert forall|k: int| 0 <= k < told@.len() implies (#[trigger] told@[k]) < longer.len()
                && longer[told@[k] as int].pending by {
                if k < so_far.len() {
                    assert(told@[k] == so_far[k]);
                    assert(before.take(i as int)[so_far[k] as int].pending);
                }
            }
            assert forall|m: int|
                0 <= m < longer.len() && (#[trigger] longer[m]).pending implies exists|k: int|
                0 <= k < told@.len() && #[trigger] told@[k] == m by {
                if m < i {
                    assert(before.take(i as int)[m].pending);
                    let k = choose|k: int| 0 <= k < so_far.len() && #[trigger] so_far[k] == m;
                    assert(told@[k] == m);
                } else {
                    assert(told@[so_far.len() as int] == m);
                }
            }
            assert(lists_pending(told@, longer));
        }
        i += 1;
    }
    assert(before.take(before.len() as int) =~= before);
    assert(observers@ =~= none_pending(before));
    told
}

/// Asks for a layout: whoever observes is to hear of it, where the view is known.
pub fn request_layout<O>(
    registry: &ViewRegistry,
    observers: &mut Vec<GlobalLayoutObserver<O>>,
    widget: ViewHandle,
) -> (known: bool)
    requires
        registry.wf(),
    ensures
        known == registry.views@.live(widget),
        final(observers)@ == (if known {
            all_pending(old(observers)@)
        } else {
            old(observers)@
        }),
{
    match registry.views.get(widget) {
        Ok(_) => {
            mark_global_layout_pending(observers);
            true
        },
        Err(_) => false,
    }
}

/// Lays a view out to a frame, where the view is known.
pub fn layout_view<O>(
    registry: &mut ViewRegistry,
    observers: &mut Vec<GlobalLayoutObserver<O>>,
    widget: ViewHandle,
    frame: [i32; 4],
) -> (known: bool)
    requires
        old(registry).wf(),
    ensures
        final(registry).wf(),
        known == old(registry).views@.live(widget),
        known ==> ViewRegistry::view_changed(*old(registry), *final(registry), widget)
            && final(registry).views@.value(widget) == (ViewState {
            frame: Some(frame),
            ..old(registry).views@.value(widget)
        }),
        !known ==> final(registry).same_as(*old(registry)),
        final(observers)@ == (if known {
            all_pending(old(observers)@)
        } else {
            old(observers)@
        }),
{
    if view_registry::set_frame(registry, widget, frame) {
        mark_global_layout_pending(observers);
        true
    } else {
        false
    }
}

/// A measure spec that gives a size gives it whatever the view suggests.
pub proof fn law_given_size_stands(measure_spec: i32, a: i32, b: i32)
    requires
        gives_size(measure_spec),
    ensures
        default_size(measure_spec, a) == default_size(measure_spec, b),
        0 <= default_size(measure_spec, a) < MEASURE_SPEC_MODE_UNIT,
{
}

/// A measure spec that was put together gives back its mode and its size.
pub proof fn law_measure_spec_is_read_back(size: i32)
    requires
        0 <= size < MEASURE_SPEC_MODE_UNIT,
    ensures
        spec_mode((MEASURE_SPEC_EXACTLY + size) as i32) == MODE_EXACTLY,
        spec_size((MEASURE_SPEC_EXACTLY + size) as i32) == size,
        spec_mode((MEASURE_SPEC_AT_MOST + size) as i32) == MODE_AT_MOST,
        spec_size((MEASURE_SPEC_AT_MOST + size) as i32) == size,
        spec_mode(size) == 0,
        spec_size(size) == size,
{
}

/// Every observer that waits when a turn begins is told in it, once, and no other
/// one is; whatever the observers do while they are told, the turn's list stands.
/// After the turn nobody waits for what happened before it.
pub proof fn law_every_waiting_observer_is_told_once<O>(
    observers: Seq<GlobalLayoutObserver<O>>,
    told: Seq<usize>,
    at: int,
)
    requires
        lists_pending(told, observers),
        0 <= at < observers.len(),
    ensures
        observers[at].pending ==> exists|k: int|
            {
                &&& 0 <= k < told.len()
                &&& #[trigger] told[k] == at
                &&& forall|j: int| 0 <= j < told.len() && #[trigger] told[j] == at ==> j == k
            },
        !observers[at].pending ==> forall|j: int|
            0 <= j < told.len() ==> #[trigger] told[j] != at,
        none_pending(observers)[at].object == observers[at].object,
        !none_pending(observers)[at].pending,
        forall|later: Seq<usize>| #[trigger]
            lists_pending(later, none_pending(observers)) ==> later.len() == 0,
{
    if observers[at].pending {
        let k = choose|k: int| 0 <= k < told.len() && #[trigger] told[k] == at;
        assert forall|j: int| 0 <= j < told.len() && #[trigger] told[j] == at implies j == k by {
            if j < k {
                assert(told[j] < told[k]);
            } else if k < j {
                assert(told[k] < told[j]);
            }
        }
    }
    assert forall|later: Seq<usize>| #[trigger]
        lists_pending(later, none_pending(observers)) implies later.len() == 0 by {
        if later.len() > 0 {
            assert(none_pending(observers)[later[0] as int].pending);
        }
    }
}

proof fn lemma_ascending_is_no_less(told: Seq<usize>, k: int)
    requires
        forall|i: int, j: int| 0 <= i < j < told.len() ==> #[trigger] told[i] < #[trigger] told[j],
        0 <= k < told.len(),
    ensures
        told[k] >= k,
    decreases k,
{
    if k > 0 {
        lemma_ascending_is_no_less(told, k - 1);
        assert(told[k - 1] < told[k]);
    }
}

proof fn lemma_all_are_listed<O>(
    observers: Seq<GlobalLayoutObserver<O>>,
    told: Seq<usize>,
    at: int,
)
    requires
        lists_pending(told, all_pending(observers)),
        0 <= at < observers.len(),
    ensures
        at < told.len(),
        told[at] == at,
    decreases at,
{
    assert(all_pending(observers)[at].pending);
    let k = choose|k: int| 0 <= k < told.len() && #[trigger] told[k] == at;
    lemma_ascending_is_no_less(told, k);
    if k < at {
        lemma_all_are_listed(observers, told, k);
    }
}

/// After a layout every observer hears of it in the next turn, in the order in which
/// they began to observe.
pub proof fn law_every_observer_hears_of_a_layout<O>(
    observers: Seq<GlobalLayoutObserver<O>>,
    told: Seq<usize>,
)
    requires
        lists_pending(told, all_pending(observers)),
    ensures
        told.len() == observers.len(),
        forall|i: int| 0 <= i < observers.len() ==> #[trigger] told[i] == i,
{
    assert forall|i: int| 0 <= i < observers.len() implies #[trigger] told[i] == i by {
        lemma_all_are_listed(observers, told, i);
    }
    if observers.len() > 0 {
        lemma_all_are_listed(observers, told, observers.len() - 1);
    }
    if told.len() > observers.len() {
        lemma_ascending_is_no_less(told, told.len() - 1);
        assert(told[told.len() - 1] < all_pending(observers).len());
    }
}

/// What a view measures by default: the size of its spec where that is exact or the most
/// that there is, else what the view suggests. The two highest bits of a spec tell the one
/// from the other, and the size is in the bits below.
pub proof fn law_spec_decides_the_size(size: i32, suggested: i32)
    requires
        0 <= size < 0x4000_0000,
    ensures
        default_size((0x4000_0000 + size) as i32, suggested) == size,
        default_size((-0x8000_0000 + size) as i32, suggested) == size,
        default_size(size, suggested) == suggested,
        default_size((-0x4000_0000 + size) as i32, suggested) == suggested,
        gives_size((0x4000_0000 + size) as i32),
        gives_size((-0x8000_0000 + size) as i32),
        !gives_size(size),
        !gives_size((-0x4000_0000 + size) as i32),
{
}

} // verus!
