//! Paths behind handles: builders that an app draws lines with, and the paths made
//! from them, each with a geometry of its own.

use vstd::prelude::*;

use crate::canvas_registry::{PathGeometry, Verb};
use crate::slots::{SlotTable, Slots};

verus! {

/// A handle to a path or to a builder. Zero stands for the empty path.
pub type PathHandle = i64;

/// Every path and every builder.
pub type PathRegistry = SlotTable<PathGeometry>;

/// A geometry as a value: what is drawn, and the coordinates for it, as the bits of
/// single-precision numbers.
#[verifier::ext_equal]
pub struct Outline {
    pub verbs: Seq<Verb>,
    pub points: Seq<u32>,
}

impl View for PathGeometry {
    type V = Outline;

    open spec fn view(&self) -> Outline {
        Outline { verbs: self.verbs@, points: self.points@ }
    }
}

impl Outline {
    /// The empty path.
    pub open spec fn empty() -> Self {
        Outline { verbs: Seq::empty(), points: Seq::empty() }
    }

    /// The outline with one thing more drawn.
    pub open spec fn then_drawn(self, verb: Verb, points: Seq<u32>) -> Self {
        Outline { verbs: self.verbs.push(verb), points: self.points + points }
    }
}

/// The outline of the path that a handle names, empty where it names none.
pub open spec fn outline_of(registry: PathRegistry, handle: PathHandle) -> Outline {
    if registry@.live(handle) {
        registry@.value(handle)@
    } else {
        Outline::empty()
    }
}

fn empty_geometry() -> (geometry: PathGeometry)
    ensures
        geometry@ == Outline::empty(),
{
    PathGeometry { verbs: Vec::new(), points: Vec::new() }
}

fn copy_geometry(source: &PathGeometry) -> (geometry: PathGeometry)
    ensures
        geometry@ == source@,
{
    let mut verbs: Vec<Verb> = Vec::new();
    let mut i: usize = 0;
    while i < source.verbs.len()
        invariant
            i <= source.verbs@.len(),
            verbs@ == source.verbs@.take(i as int),
        decreases source.verbs@.len() - i,
    {
        verbs.push(source.verbs[i]);
        i += 1;
    }
    assert(source.verbs@.take(source.verbs@.len() as int) =~= source.verbs@);
    let mut points: Vec<u32> = Vec::new();
    let mut j: usize = 0;
    while j < source.points.len()
        invariant
            j <= source.points@.len(),
            points@ == source.points@.take(j as int),
        decreases source.points@.len() - j,
    {
        points.push(source.points[j]);
        j += 1;
    }
    assert(source.points@.take(source.points@.len() as int) =~= source.points@);
    PathGeometry { verbs, points }
}

/// Makes a path with the present outline of another one, or of a builder, and
/// returns its handle, zero where no index is left. The outline is empty where the
/// source is zero or not live.
pub fn path_clone_handle(registry: &mut PathRegistry, source: PathHandle) -> (handle: PathHandle)
    requires
        old(registry)@.wf(),
    ensures
        final(registry)@.wf(),
        old(registry)@.has_room() ==> handle == old(registry)@.next_handle() && exists|
            geometry: PathGeometry,
        | #[trigger] old(registry)@.stored(geometry) == final(registry)@ && geometry@ == outline_of(
            *old(registry),
            source,
        ),
        !old(registry)@.has_room() ==> handle == 0 && final(registry)@ == old(registry)@,
{
    let geometry = if source == 0 {
        proof {
            crate::slots::law_null_handle_is_never_live(registry@);
        }
        empty_geometry()
    } else {
        match registry.get(source) {
            Ok(g) => copy_geometry(g),
            Err(_) => empty_geometry(),
        }
    };
    match registry.store(geometry) {
        Ok(handle) => handle,
        Err(_) => 0,
    }
}

/// Whether a builder, where it is live, drew one thing more, and nothing else
/// changed.
pub open spec fn drawn(
    before: PathRegistry,
    after: PathRegistry,
    builder: PathHandle,
    verb: Verb,
    points: Seq<u32>,
) -> bool {
    &&& after@.wf()
    &&& if before@.live(builder) {
        &&& after@ == before@.updated(builder, after@.value(builder))
        &&& after@.live(builder)
        &&& after@.value(builder)@ == before@.value(builder)@.then_drawn(verb, points)
    } else {
        after@ == before@
    }
}

fn record(registry: &mut PathRegistry, builder: PathHandle, verb: Verb, points: &[u32]) -> (known:
    bool)
    requires
        old(registry)@.wf(),
    ensures
        known == old(registry)@.live(builder),
        drawn(*old(registry), *final(registry), builder, verb, points@),
{
    let ghost before = registry@;
    match registry.get_mut(builder) {
        Ok(geometry) => {
            proof {
                crate::slots::law_updated_value_is_read_back(before, builder, *final(geometry));
            }
            geometry.verbs.push(verb);
            geometry.points.extend_from_slice(points);
            assert(geometry.points@ =~= before.value(builder).points@ + points@);
            true
        },
        Err(_) => false,
    }
}

/// Starts a new line at a point.
pub fn move_to(registry: &mut PathRegistry, builder: PathHandle, x: u32, y: u32) -> (known: bool)
    requires
        old(registry)@.wf(),
    ensures
        known == old(registry)@.live(builder),
        drawn(*old(registry), *final(registry), builder, Verb::MoveTo, seq![x, y]),
{
    let points: [u32; 2] = [x, y];
    assert(points@ =~= seq![x, y]);
    record(registry, builder, Verb::MoveTo, &points)
}

/// Draws a straight line to a point.
pub fn line_to(registry: &mut PathRegistry, builder: PathHandle, x: u32, y: u32) -> (known: bool)
    requires
        old(registry)@.wf(),
    ensures
        known == old(registry)@.live(builder),
        drawn(*old(registry), *final(registry), builder, Verb::LineTo, seq![x, y]),
{
    let points: [u32; 2] = [x, y];
    assert(points@ =~= seq![x, y]);
    record(registry, builder, Verb::LineTo, &points)
}

/// Draws a quadratic curve to a point.
pub fn quad_to(
    registry: &mut PathRegistry,
    builder: PathHandle,
    cx: u32,
    cy: u32,
    x: u32,
    y: u32,
) -> (known: bool)
    requires
        old(registry)@.wf(),
    ensures
        known == old(registry)@.live(builder),
        drawn(*old(registry), *final(registry), builder, Verb::QuadTo, seq![cx, cy, x, y]),
{
    let points: [u32; 4] = [cx, cy, x, y];
    assert(points@ =~= seq![cx, cy, x, y]);
    record(registry, builder, Verb::QuadTo, &points)
}

/// Draws a cubic curve to a point.
pub fn cubic_to(
    registry: &mut PathRegistry,
    builder: PathHandle,
    c1: (u32, u32),
    c2: (u32, u32),
    x: u32,
    y: u32,
) -> (known: bool)
    requires
        old(registry)@.wf(),
    ensures
        known == old(registry)@.live(builder),
        drawn(
            *old(registry),
            *final(registry),
            builder,
            Verb::CubicTo,
            seq![c1.0, c1.1, c2.0, c2.1, x, y],
        ),
{
    let points: [u32; 6] = [c1.0, c1.1, c2.0, c2.1, x, y];
    assert(points@ =~= seq![c1.0, c1.1, c2.0, c2.1, x, y]);
    record(registry, builder, Verb::CubicTo, &points)
}

/// Closes the line.
pub fn close(registry: &mut PathRegistry, builder: PathHandle) -> (known: bool)
    requires
        old(registry)@.wf(),
    ensures
        known == old(registry)@.live(builder),
        drawn(*old(registry), *final(registry), builder, Verb::Close, Seq::empty()),
{
    let points: [u32; 0] = [];
    assert(points@ =~= Seq::empty());
    record(registry, builder, Verb::Close, &points)
}

/// The table without the value of a handle, where it had one.
pub open spec fn without(table: Slots<PathGeometry>, handle: PathHandle) -> Slots<PathGeometry> {
    if table.live(handle) {
        table.freed(handle)
    } else {
        table
    }
}

fn drop_path(registry: &mut PathRegistry, handle: PathHandle)
    requires
        old(registry)@.wf(),
    ensures
        final(registry)@.wf(),
        final(registry)@ == without(old(registry)@, handle),
{
    if handle == 0 {
        proof {
            crate::slots::law_null_handle_is_never_live(registry@);
        }
        return;
    }
    match registry.free(handle) {
        Ok(()) => {},
        Err(_) => {},
    }
}

/// Ends a path and a builder, those of the two that are live.
pub fn reset(registry: &mut PathRegistry, path: PathHandle, builder: PathHandle)
    requires
        old(registry)@.wf(),
    ensures
        final(registry)@.wf(),
        final(registry)@ == without(without(old(registry)@, path), builder),
{
    drop_path(registry, path);
    drop_path(registry, builder);
}

/// A path made from a builder is a copy: whatever one of the two draws afterwards,
/// the other keeps its outline.
pub proof fn law_path_is_independent(
    table: Slots<PathGeometry>,
    builder: PathHandle,
    copy: PathGeometry,
    drawn_on: PathGeometry,
)
    requires
        table.wf(),
        table.live(builder),
        table.has_room(),
        copy@ == table.value(builder)@,
    ensures
        ({
            let path = table.next_handle();
            let after = table.stored(copy).updated(builder, drawn_on);
            &&& path != builder
            &&& after.live(path)
            &&& after.value(path)@ == table.value(builder)@
            &&& table.stored(copy).updated(path, drawn_on).live(builder)
            &&& table.stored(copy).updated(path, drawn_on).value(builder) == table.value(builder)
        }),
{
    crate::slots::law_stored_value_is_read_back(table, copy);
    let after = table.stored(copy);
    crate::slots::law_live_handles_do_not_share_a_slot(after, builder, table.next_handle());
    crate::slots::law_live_handles_do_not_share_a_slot(after, table.next_handle(), builder);
}

/// Drawing adds a verb and its points behind those that a path has, and leaves every other
/// path alone; a handle without a path is drawn nothing.
pub proof fn law_drawing_adds_to_one_path(
    before: PathRegistry,
    after: PathRegistry,
    builder: PathHandle,
    verb: Verb,
    points: Seq<u32>,
    other: PathHandle,
)
    requires
        before@.wf(),
        drawn(before, after, builder, verb, points),
    ensures
        before@.live(builder) ==> {
            let old = before@.value(builder);
            let new = after@.value(builder);
            &&& after@.live(builder)
            &&& new.verbs@ == old.verbs@.push(verb)
            &&& new.points@ == old.points@ + points
            &&& outline_of(after, builder).verbs == new.verbs@
            &&& outline_of(after, builder).points == new.points@
        },
        !before@.live(builder) ==> after@ == before@ && outline_of(before, builder).verbs.len() == 0
            && outline_of(before, builder).points.len() == 0,
        before@.live(other) && other != builder ==> after@.live(other) && after@.value(other)
            == before@.value(other),
{
    if before@.live(builder) && before@.live(other) && other != builder {
        crate::slots::law_live_handles_do_not_share_a_slot(before@, builder, other);
    }
}

/// A path that ends is gone, and no other one is.
pub proof fn law_path_ends_alone(table: Slots<PathGeometry>, handle: PathHandle, other: PathHandle)
    requires
        table.wf(),
        other != handle,
    ensures
        !without(table, handle).live(handle),
        table.live(other) ==> without(table, handle).live(other) && without(table, handle).value(
            other,
        ) == table.value(other),
        !table.live(handle) ==> without(table, handle) == table,
{
    if table.live(handle) {
        crate::slots::law_freed_handle_is_stale(table, handle);
        if table.live(other) {
            crate::slots::law_live_handles_do_not_share_a_slot(table, handle, other);
        }
    }
}

} // verus!
