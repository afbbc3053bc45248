//! Drawing surfaces behind handles, and what a drawing call asks of a surface.

use tiny_skia::{Color, Pixmap};
use vstd::prelude::*;

use crate::paint_registry::PaintStyle;
use crate::slots;
use crate::slots::{SlotError, SlotTable};

verus! {

/// A handle to a canvas. Zero is never the handle of one.
pub type CanvasHandle = i64;

/// Every canvas.
pub type CanvasRegistry = SlotTable<CanvasState>;

/// The largest width and height of a canvas.
pub const MAX_CANVAS_DIMENSION: u32 = 8192;

/// Why a canvas could not be made or reached.
#[derive(Debug, Clone, Copy, PartialEq, Eq, Structural)]
pub enum CanvasRegistryError {
    OutOfRange,
    StaleHandle,
    Poisoned,
    BadDimensions,
}

impl CanvasRegistryError {
    /// The error that a slot table reports, as this registry reports it.
    pub open spec fn of(error: SlotError) -> Self {
        match error {
            SlotError::OutOfRange => CanvasRegistryError::OutOfRange,
            SlotError::StaleHandle => CanvasRegistryError::StaleHandle,
        }
    }

    fn from_slot(error: SlotError) -> (e: Self)
        ensures
            e == Self::of(error),
    {
        match error {
            SlotError::OutOfRange => CanvasRegistryError::OutOfRange,
            SlotError::StaleHandle => CanvasRegistryError::StaleHandle,
        }
    }

    /// The message that an error is shown with.
    pub fn message(&self) -> (text: &'static str)
        ensures
            text@ == match *self {
                CanvasRegistryError::OutOfRange =>
                    "canvas handle slot index is out of range (fabricated or null handle)"@,
                CanvasRegistryError::StaleHandle =>
                    "canvas handle refers to a freed slot (stale generation)"@,
                CanvasRegistryError::Poisoned => "canvas registry mutex was poisoned"@,
                CanvasRegistryError::BadDimensions =>
                    "canvas backing dimensions are zero or exceed the maximum"@,
            },
    {
        match self {
            CanvasRegistryError::OutOfRange => {
                "canvas handle slot index is out of range (fabricated or null handle)"
            },
            CanvasRegistryError::StaleHandle => {
                "canvas handle refers to a freed slot (stale generation)"
            },
            CanvasRegistryError::Poisoned => "canvas registry mutex was poisoned",
            CanvasRegistryError::BadDimensions => {
                "canvas backing dimensions are zero or exceed the maximum"
            },
        }
    }
}

/// `tiny_skia::Pixmap`: a buffer of premultiplied RGBA pixels.
#[verifier::external_type_specification]
#[verifier::external_body]
pub struct ExPixmap(tiny_skia::Pixmap);

/// The bytes of a pixmap's premultiplied pixels, row by row, four to a pixel in
/// the order red, green, blue, alpha.
pub uninterp spec fn pixmap_bytes(pixmap: Pixmap) -> Seq<u8>;

/// The width and the height that a pixmap was made with.
pub uninterp spec fn pixmap_size(pixmap: Pixmap) -> (u32, u32);

/// The four bytes that `tiny_skia::Pixmap::fill` writes for a color given by its
/// red, green, blue and alpha components.
pub uninterp spec fn solid_pixel(r: u8, g: u8, b: u8, a: u8) -> Seq<u8>;

/// The bytes that `tiny_skia::Pixmap::take_demultiplied` makes of premultiplied
/// ones.
pub uninterp spec fn demultiplied(bytes: Seq<u8>) -> Seq<u8>;

/// `tiny_skia::Pixmap::new`. A size of zero is refused. Every size up to the
/// largest that a canvas may have gives a pixmap of that size whose pixels are
/// all transparent black. Nothing is claimed of larger sizes.
pub assume_specification[ Pixmap::new ](width: u32, height: u32) -> (result: Option<Pixmap>)
    ensures
        width == 0 || height == 0 ==> result is None,
        1 <= width <= MAX_CANVAS_DIMENSION && 1 <= height <= MAX_CANVAS_DIMENSION ==> {
            &&& result is Some
            &&& pixmap_size(result->0) == (width, height)
            &&& pixmap_bytes(result->0) == Seq::new((4 * width * height) as nat, |i: int| 0u8)
        },
;

/// `tiny_skia::Pixmap::width`: the width that the pixmap was made with.
pub assume_specification[ Pixmap::width ](pixmap: &Pixmap) -> (width: u32)
    ensures
        width == pixmap_size(*pixmap).0,
;

/// `tiny_skia::Pixmap::height`: the height that the pixmap was made with.
pub assume_specification[ Pixmap::height ](pixmap: &Pixmap) -> (height: u32)
    ensures
        height == pixmap_size(*pixmap).1,
;

/// `tiny_skia::Pixmap::fill` with `tiny_skia::Color::from_rgba8`: every pixel
/// gets the same four bytes, and the size stays. A color with full alpha is
/// written as it is, one with no alpha as transparent black.
#[verifier::external_body]
fn pixmap_fill(pixmap: &mut Pixmap, r: u8, g: u8, b: u8, a: u8)
    ensures
        pixmap_size(*final(pixmap)) == pixmap_size(*old(pixmap)),
        pixmap_bytes(*final(pixmap)) == Seq::new(
            pixmap_bytes(*old(pixmap)).len(),
            |i: int| solid_pixel(r, g, b, a)[i % 4],
        ),
        a == 255 ==> pixmap_bytes(*final(pixmap)) == Seq::new(
            pixmap_bytes(*old(pixmap)).len(),
            |i: int| seq![r, g, b, 255u8][i % 4],
        ),
        a == 0 ==> pixmap_bytes(*final(pixmap)) == Seq::new(
            pixmap_bytes(*old(pixmap)).len(),
            |i: int| 0u8,
        ),
{
    pixmap.fill(Color::from_rgba8(r, g, b, a));
}

/// `tiny_skia::Pixmap::take_demultiplied` on a clone of the pixmap: as many bytes
/// as the pixmap has, and those of every pixel with full alpha, and of every
/// transparent black one, as they are.
#[verifier::external_body]
fn pixmap_demultiplied(pixmap: &Pixmap) -> (bytes: Vec<u8>)
    ensures
        bytes@ == demultiplied(pixmap_bytes(*pixmap)),
        bytes@.len() == pixmap_bytes(*pixmap).len(),
        forall|k: int|
            0 <= k < pixmap_bytes(*pixmap).len() / 4 && #[trigger] settled_pixel(
                pixmap_bytes(*pixmap),
                k,
            ) ==> same_pixel(bytes@, pixmap_bytes(*pixmap), k),
{
    pixmap.clone().take_demultiplied()
}

/// Whether pixel `k` has full alpha or is transparent black.
pub open spec fn settled_pixel(bytes: Seq<u8>, k: int) -> bool {
    bytes[4 * k + 3] == 255 || (bytes[4 * k] == 0 && bytes[4 * k + 1] == 0 && bytes[4 * k + 2] == 0
        && bytes[4 * k + 3] == 0)
}

/// Whether pixel `k` is the same in both.
pub open spec fn same_pixel(a: Seq<u8>, b: Seq<u8>, k: int) -> bool {
    a[4 * k] == b[4 * k] && a[4 * k + 1] == b[4 * k + 1] && a[4 * k + 2] == b[4 * k + 2] && a[4 * k
        + 3] == b[4 * k + 3]
}

/// What a shape is drawn with. The stroke width is held as the bits of a
/// single-precision number.
#[derive(Debug, Clone, Copy, PartialEq, Eq, Structural)]
pub struct PaintConfig {
    pub argb: i32,
    pub style: PaintStyle,
    pub stroke_width_bits: u32,
    pub even_odd: bool,
}

impl PaintConfig {
    /// Opaque black, filling by the winding rule.
    pub open spec fn plain() -> Self {
        PaintConfig {
            argb: crate::paint_registry::OPAQUE_BLACK,
            style: PaintStyle::Fill,
            stroke_width_bits: 0,
            even_odd: false,
        }
    }
}

impl Default for PaintConfig {
    fn default() -> (config: Self)
        ensures
            config == PaintConfig::plain(),
            config.argb == -0x100_0000,
            config.style == PaintStyle::Fill,
            config.stroke_width_bits == 0,
            !config.even_odd,
    {
        PaintConfig {
            argb: crate::paint_registry::OPAQUE_BLACK,
            style: PaintStyle::Fill,
            stroke_width_bits: 0,
            even_odd: false,
        }
    }
}

/// Whether a style draws the interior of a shape.
pub fn fills(style: PaintStyle) -> (b: bool)
    ensures
        b == (style == PaintStyle::Fill || style == PaintStyle::FillAndStroke),
{
    matches!(style, PaintStyle::Fill | PaintStyle::FillAndStroke)
}

/// Whether a style draws the outline of a shape.
pub fn strokes(style: PaintStyle) -> (b: bool)
    ensures
        b == (style == PaintStyle::Stroke || style == PaintStyle::FillAndStroke),
{
    matches!(style, PaintStyle::Stroke | PaintStyle::FillAndStroke)
}

/// Whether the bits are those of a finite single-precision number.
pub open spec fn is_finite(bits: u32) -> bool {
    bits % 0x8000_0000 < 0x7f80_0000
}

/// Whether a circle is drawn at all: its center is finite, and its radius is finite
/// and above zero. All three are held as the bits of single-precision numbers.
pub fn circle_shows(cx_bits: u32, cy_bits: u32, radius_bits: u32) -> (b: bool)
    ensures
        b == (is_finite(cx_bits) && is_finite(cy_bits) && 0 < radius_bits < 0x7f80_0000),
{
    cx_bits % 0x8000_0000 < 0x7f80_0000 && cy_bits % 0x8000_0000 < 0x7f80_0000 && 0 < radius_bits
        && radius_bits < 0x7f80_0000
}

/// The value of `argb` read as an unsigned number.
pub open spec fn argb_value(argb: i32) -> int {
    if argb >= 0 {
        argb as int
    } else {
        argb + 0x1_0000_0000
    }
}

/// The red, green, blue and alpha components of an ARGB color: its third, second,
/// lowest and highest byte.
pub open spec fn channels_of(argb: i32) -> (u8, u8, u8, u8) {
    let v = argb_value(argb);
    (
        (v / 0x1_0000 % 0x100) as u8,
        (v / 0x100 % 0x100) as u8,
        (v % 0x100) as u8,
        (v / 0x100_0000) as u8,
    )
}

/// The red, green, blue and alpha components of an ARGB color.
pub fn argb_channels(argb: i32) -> (channels: (u8, u8, u8, u8))
    ensures
        channels == channels_of(argb),
        ({
            let value = ((channels.3 * 256 + channels.0) * 256 + channels.1) * 256 + channels.2;
            value == argb || value == argb + 0x1_0000_0000
        }),
{
    let v: u32 = argb as u32;
    assert(argb >= 0 ==> v == argb) by (bit_vector)
        requires
            v == argb as u32,
    ;
    assert(argb < 0 ==> v == argb + 0x1_0000_0000) by (bit_vector)
        requires
            v == argb as u32,
    ;
    assert(((v >> 16u32) as u8) == v / 0x1_0000 % 0x100) by (bit_vector);
    assert(((v >> 8u32) as u8) == v / 0x100 % 0x100) by (bit_vector);
    assert((v as u8) == v % 0x100) by (bit_vector);
    assert(((v >> 24u32) as u8) == v / 0x100_0000) by (bit_vector);
    ((v >> 16u32) as u8, (v >> 8u32) as u8, v as u8, (v >> 24u32) as u8)
}

/// A canvas: the pixels that were drawn so far.
pub struct CanvasState {
    pixmap: Pixmap,
}

/// What a `CanvasState` holds.
#[verifier::ext_equal]
pub struct Surface {
    pub width: u32,
    pub height: u32,
    /// The premultiplied pixels, four bytes each.
    pub bytes: Seq<u8>,
}

impl Surface {
    /// The surface of a new canvas, transparent all over.
    pub open spec fn blank(width: u32, height: u32) -> Self {
        Surface {
            width,
            height,
            bytes: Seq::new((4 * width * height) as nat, |i: int| 0u8),
        }
    }

    /// The surface after it was filled with one pixel value.
    pub open spec fn filled(self, pixel: Seq<u8>) -> Self {
        Surface {
            width: self.width,
            height: self.height,
            bytes: Seq::new(self.bytes.len(), |i: int| pixel[i % 4]),
        }
    }
}

impl View for CanvasState {
    type V = Surface;

    closed spec fn view(&self) -> Surface {
        Surface {
            width: pixmap_size(self.pixmap).0,
            height: pixmap_size(self.pixmap).1,
            bytes: pixmap_bytes(self.pixmap),
        }
    }
}

impl CanvasState {
    /// The width and the height of the canvas.
    pub fn dimensions(&self) -> (size: (u32, u32))
        ensures
            size == (self@.width, self@.height),
    {
        (self.pixmap.width(), self.pixmap.height())
    }

    /// The pixels without the alpha multiplied in, four bytes each. A pixel with
    /// full alpha, or a transparent black one, is given as it is.
    pub fn rgba(&self) -> (bytes: Vec<u8>)
        ensures
            bytes@ == demultiplied(self@.bytes),
            bytes@.len() == self@.bytes.len(),
            forall|k: int|
                0 <= k < self@.bytes.len() / 4 && #[trigger] settled_pixel(self@.bytes, k)
                    ==> same_pixel(bytes@, self@.bytes, k),
    {
        pixmap_demultiplied(&self.pixmap)
    }

    /// Gives every pixel the color.
    pub fn draw_color(&mut self, argb: i32)
        ensures
            ({
                let c = channels_of(argb);
                let pixel = if c.3 == 255 {
                    seq![c.0, c.1, c.2, 255u8]
                } else if c.3 == 0 {
                    seq![0u8, 0u8, 0u8, 0u8]
                } else {
                    solid_pixel(c.0, c.1, c.2, c.3)
                };
                final(self)@ == old(self)@.filled(pixel)
            }),
    {
        let (r, g, b, a) = argb_channels(argb);
        let ghost before = self@;
        pixmap_fill(&mut self.pixmap, r, g, b, a);
        proof {
            assert(seq![0u8, 0u8, 0u8, 0u8] =~= Seq::new(4, |i: int| 0u8));
            if a == 255 {
                assert(self@ =~= before.filled(seq![r, g, b, 255u8]));
            } else if a == 0 {
                assert(self@.bytes =~= before.filled(seq![0u8, 0u8, 0u8, 0u8]).bytes);
                assert(self@ =~= before.filled(seq![0u8, 0u8, 0u8, 0u8]));
            } else {
                assert(self@ =~= before.filled(solid_pixel(r, g, b, a)));
            }
        }
    }

    /// The pixmap, for the drawing calls that work on single-precision numbers.
    pub fn pixmap_mut(&mut self) -> (pixmap: &mut Pixmap)
        ensures
            pixmap_size(*pixmap) == (old(self)@.width, old(self)@.height),
            pixmap_bytes(*pixmap) == old(self)@.bytes,
            final(self)@ == (Surface {
                width: pixmap_size(*final(pixmap)).0,
                height: pixmap_size(*final(pixmap)).1,
                bytes: pixmap_bytes(*final(pixmap)),
            }),
    {
        &mut self.pixmap
    }
}

/// Whether a canvas may have this size.
pub open spec fn good_dimensions(width: u32, height: u32) -> bool {
    1 <= width <= MAX_CANVAS_DIMENSION && 1 <= height <= MAX_CANVAS_DIMENSION
}

/// The handle of a slot index and a generation.
pub fn pack(index: u32, generation: u32) -> (handle: CanvasHandle)
    ensures
        handle == crate::slots::handle_of(index, generation),
        crate::slots::handle_index(handle) == index,
        crate::slots::handle_generation(handle) == generation,
{
    slots::pack(index, generation)
}

/// The slot index and the generation of a handle.
pub fn unpack(handle: CanvasHandle) -> (parts: (u32, u32))
    ensures
        parts.0 == crate::slots::handle_index(handle),
        parts.1 == crate::slots::handle_generation(handle),
        crate::slots::handle_of(parts.0, parts.1) == handle,
{
    slots::unpack(handle)
}

/// Makes a transparent canvas. A size of zero or above the maximum is refused;
/// the only other failure is that no index is left.
pub fn allocate(registry: &mut CanvasRegistry, width: u32, height: u32) -> (result: Result<
    CanvasHandle,
    CanvasRegistryError,
>)
    requires
        old(registry)@.wf(),
    ensures
        final(registry)@.wf(),
        !good_dimensions(width, height) ==> result == Err::<CanvasHandle, CanvasRegistryError>(
            CanvasRegistryError::BadDimensions,
        ) && final(registry)@ == old(registry)@,
        good_dimensions(width, height) && !old(registry)@.has_room() ==> result == Err::<
            CanvasHandle,
            CanvasRegistryError,
        >(CanvasRegistryError::OutOfRange) && final(registry)@ == old(registry)@,
        good_dimensions(width, height) && old(registry)@.has_room() ==> result == Ok::<
            CanvasHandle,
            CanvasRegistryError,
        >(old(registry)@.next_handle()) && exists|state: CanvasState|
            state@ == Surface::blank(width, height) && #[trigger] old(registry)@.stored(state)
                == final(registry)@,
{
    if width == 0 || height == 0 || width > MAX_CANVAS_DIMENSION || height > MAX_CANVAS_DIMENSION {
        return Err(CanvasRegistryError::BadDimensions);
    }
    let pixmap = match Pixmap::new(width, height) {
        Some(pixmap) => pixmap,
        None => {
            return Err(CanvasRegistryError::BadDimensions);
        },
    };
    let state = CanvasState { pixmap };
    assert(state@ =~= Surface::blank(width, height));
    match registry.store(state) {
        Ok(handle) => Ok(handle),
        Err(e) => Err(CanvasRegistryError::from_slot(e)),
    }
}

/// Applies `f` to the canvas that `handle` names.
pub fn with_canvas<R, F: FnOnce(&mut CanvasState) -> R>(
    registry: &mut CanvasRegistry,
    handle: CanvasHandle,
    f: F,
) -> (result: Result<R, CanvasRegistryError>)
    requires
        old(registry)@.wf(),
        old(registry)@.live(handle) ==> crate::slots::applicable(
            f,
            old(registry)@.value(handle),
        ),
    ensures
        final(registry)@.wf(),
        old(registry)@.live(handle) ==> {
            let after = final(registry)@.value(handle);
            &&& result is Ok
            &&& exists|x: &mut CanvasState| #[trigger]
                f.ensures((x,), result->Ok_0) && *x == old(registry)@.value(handle) && *final(x)
                    == after
            &&& final(registry)@ == old(registry)@.updated(handle, after)
        },
        !old(registry)@.live(handle) ==> result == Err::<R, CanvasRegistryError>(
            CanvasRegistryError::of(old(registry)@.refusal(handle)),
        ) && final(registry)@ == old(registry)@,
{
    let ghost before = registry@;
    match registry.with(handle, f) {
        Ok(output) => {
            let ghost given = choose|x: &mut CanvasState| #[trigger]
                f.ensures((x,), output) && *x == before.value(handle) && *final(x)
                    == registry@.value(handle);
            let result = Ok(output);
            assert(f.ensures((given,), result->Ok_0));
            result
        },
        Err(e) => Err(CanvasRegistryError::from_slot(e)),
    }
}

/// Drops the canvas that `handle` names.
pub fn free(registry: &mut CanvasRegistry, handle: CanvasHandle) -> (result: Result<
    (),
    CanvasRegistryError,
>)
    requires
        old(registry)@.wf(),
    ensures
        final(registry)@.wf(),
        old(registry)@.live(handle) ==> result is Ok && final(registry)@ == old(registry)@.freed(
            handle,
        ),
        !old(registry)@.live(handle) ==> result == Err::<(), CanvasRegistryError>(
            CanvasRegistryError::of(old(registry)@.refusal(handle)),
        ) && final(registry)@ == old(registry)@,
{
    match registry.free(handle) {
        Ok(()) => Ok(()),
        Err(e) => Err(CanvasRegistryError::from_slot(e)),
    }
}

/// One step of an outline.
#[derive(Debug, Clone, Copy, PartialEq, Eq, Structural)]
pub enum Verb {
    MoveTo,
    LineTo,
    QuadTo,
    CubicTo,
    Close,
}

impl Verb {
    /// How many points the step takes.
    pub open spec fn spec_point_count(self) -> nat {
        match self {
            Verb::MoveTo => 1,
            Verb::LineTo => 1,
            Verb::QuadTo => 2,
            Verb::CubicTo => 3,
            Verb::Close => 0,
        }
    }

    /// How many points the step takes.
    pub fn point_count(self) -> (n: usize)
        ensures
            n == self.spec_point_count(),
            self == Verb::MoveTo || self == Verb::LineTo ==> n == 1,
            self == Verb::QuadTo ==> n == 2,
            self == Verb::CubicTo ==> n == 3,
            self == Verb::Close ==> n == 0,
    {
        match self {
            Verb::MoveTo => 1,
            Verb::LineTo => 1,
            Verb::QuadTo => 2,
            Verb::CubicTo => 3,
            Verb::Close => 0,
        }
    }
}

/// A recorded outline: its steps, and the coordinates of all their points in a
/// row, each held as the bits of a single-precision number.
pub struct PathGeometry {
    pub verbs: Vec<Verb>,
    pub points: Vec<u32>,
}

/// A step with its coordinates.
#[derive(Debug, Clone, Copy, PartialEq, Eq, Structural)]
pub enum Segment {
    MoveTo(u32, u32),
    LineTo(u32, u32),
    QuadTo(u32, u32, u32, u32),
    CubicTo(u32, u32, u32, u32, u32, u32),
    Close,
}

/// The number of coordinates that the first `n` steps take.
pub open spec fn coordinates_before(verbs: Seq<Verb>, n: nat) -> nat
    decreases n,
{
    if n == 0 {
        0
    } else {
        coordinates_before(verbs, (n - 1) as nat) + 2 * verbs[n - 1].spec_point_count()
    }
}

/// Whether the first `n` steps have all the coordinates that they take.
pub open spec fn supplied(verbs: Seq<Verb>, points: Seq<u32>, n: nat) -> bool {
    n <= verbs.len() && coordinates_before(verbs, n) <= points.len()
}

/// A step with the coordinates that start at `at`.
pub open spec fn segment_at(verb: Verb, points: Seq<u32>, at: int) -> Segment {
    match verb {
        Verb::MoveTo => Segment::MoveTo(points[at], points[at + 1]),
        Verb::LineTo => Segment::LineTo(points[at], points[at + 1]),
        Verb::QuadTo => Segment::QuadTo(
            points[at],
            points[at + 1],
            points[at + 2],
            points[at + 3],
        ),
        Verb::CubicTo => Segment::CubicTo(
            points[at],
            points[at + 1],
            points[at + 2],
            points[at + 3],
            points[at + 4],
            points[at + 5],
        ),
        Verb::Close => Segment::Close,
    }
}

/// The steps of an outline with their coordinates, up to the first step whose
/// coordinates are missing.
pub fn path_segments(geometry: &PathGeometry) -> (segments: Vec<Segment>)
    ensures
        supplied(geometry.verbs@, geometry.points@, segments@.len()),
        segments@.len() < geometry.verbs@.len() ==> !supplied(
            geometry.verbs@,
            geometry.points@,
            segments@.len() + 1,
        ),
        forall|k: int|
            0 <= k < segments@.len() ==> #[trigger] segments@[k] == segment_at(
                geometry.verbs@[k],
                geometry.points@,
                coordinates_before(geometry.verbs@, k as nat) as int,
            ),
{
    let mut segments: Vec<Segment> = Vec::new();
    let verbs = &geometry.verbs;
    let pts = &geometry.points;
    let mut i: usize = 0;
    let mut k: usize = 0;
    while k < verbs.len()
        invariant
            k == segments@.len(),
            k <= verbs@.len(),
            verbs@ == geometry.verbs@,
            pts@ == geometry.points@,
            i == coordinates_before(verbs@, k as nat),
            i <= pts@.len(),
            forall|j: int|
                0 <= j < segments@.len() ==> #[trigger] segments@[j] == segment_at(
                    verbs@[j],
                    pts@,
                    coordinates_before(verbs@, j as nat) as int,
                ),
        decreases verbs@.len() - k,
    {
        let verb: Verb = verbs[k];
        let need: usize = verb.point_count() * 2;
        assert(coordinates_before(verbs@, (k + 1) as nat) == i + need);
        if need > pts.len() - i {
            return segments;
        }
        let segment = match verb {
            Verb::MoveTo => Segment::MoveTo(pts[i], pts[i + 1]),
            Verb::LineTo => Segment::LineTo(pts[i], pts[i + 1]),
            Verb::QuadTo => Segment::QuadTo(pts[i], pts[i + 1], pts[i + 2], pts[i + 3]),
            Verb::CubicTo => Segment::CubicTo(
                pts[i],
                pts[i + 1],
                pts[i + 2],
                pts[i + 3],
                pts[i + 4],
                pts[i + 5],
            ),
            Verb::Close => Segment::Close,
        };
        segments.push(segment);
        i = i + need;
        k = k + 1;
    }
    segments
}

/// A canvas that was filled with an opaque color shows that color in every
/// pixel.
pub proof fn law_opaque_fill_shows_everywhere(surface: Surface, r: u8, g: u8, b: u8, k: int)
    requires
        0 <= k < surface.bytes.len() / 4,
    ensures
        ({
            let after = surface.filled(seq![r, g, b, 255u8]);
            &&& settled_pixel(after.bytes, k)
            &&& after.bytes[4 * k] == r
            &&& after.bytes[4 * k + 1] == g
            &&& after.bytes[4 * k + 2] == b
            &&& after.bytes[4 * k + 3] == 255
        }),
{
}

/// A color is put together from its channels, alpha highest, then red, green and blue, and
/// taken apart into them again.
pub proof fn law_color_is_its_channels(a: u8, r: u8, g: u8, b: u8, argb: i32)
    requires
        ({
            let value = ((a * 256 + r) * 256 + g) * 256 + b;
            argb == value || argb == value - 0x1_0000_0000
        }),
    ensures
        channels_of(argb).0 == r,
        channels_of(argb).1 == g,
        channels_of(argb).2 == b,
        channels_of(argb).3 == a,
{
}

/// A canvas can be one to 8192 pixels wide and high, and begins transparent: four bytes a
/// pixel, all of them zero.
pub proof fn law_canvas_begins_transparent(width: u32, height: u32, i: int)
    ensures
        good_dimensions(width, height) <==> 1 <= width <= 8192 && 1 <= height <= 8192,
        Surface::blank(width, height).width == width,
        Surface::blank(width, height).height == height,
        Surface::blank(width, height).bytes.len() == 4 * width * height,
        0 <= i < 4 * width * height ==> Surface::blank(width, height).bytes[i] == 0,
{
    assert(4 * width * height >= 0) by (nonlinear_arith);
}

/// Filling a canvas gives every pixel the same four bytes, and keeps its size.
pub proof fn law_fill_is_the_same_everywhere(surface: Surface, pixel: Seq<u8>, k: int, c: int)
    requires
        pixel.len() == 4,
        0 <= c < 4,
        0 <= 4 * k + c < surface.bytes.len(),
    ensures
        surface.filled(pixel).bytes[4 * k + c] == pixel[c],
        surface.filled(pixel).bytes.len() == surface.bytes.len(),
        surface.filled(pixel).width == surface.width,
        surface.filled(pixel).height == surface.height,
{
}

/// A number is finite unless all bits of its exponent are set.
pub proof fn law_finite_numbers_have_an_exponent(bits: u32)
    ensures
        is_finite(bits) <==> bits / 0x80_0000 % 0x100 != 0xFF,
{
}

/// Each verb of a path takes its own points, in order: a move and a line one, a quadratic
/// curve two, a cubic curve three, and a close none; each point is two coordinates.
pub proof fn law_verbs_take_their_points_in_order(
    verbs: Seq<Verb>,
    points: Seq<u32>,
    verb: Verb,
    n: nat,
    at: int,
)
    requires
        n <= verbs.len(),
    ensures
        coordinates_before(verbs, 0) == 0,
        ({
            let before = coordinates_before(verbs, n);
            let after = coordinates_before(verbs.take(n as int).push(verb), n + 1);
            &&& verb == Verb::MoveTo || verb == Verb::LineTo ==> after == before + 2
            &&& verb == Verb::QuadTo ==> after == before + 4
            &&& verb == Verb::CubicTo ==> after == before + 6
            &&& verb == Verb::Close ==> after == before
        }),
        segment_at(Verb::MoveTo, points, at) == Segment::MoveTo(points[at], points[at + 1]),
        segment_at(Verb::LineTo, points, at) == Segment::LineTo(points[at], points[at + 1]),
        segment_at(Verb::QuadTo, points, at) == Segment::QuadTo(
            points[at],
            points[at + 1],
            points[at + 2],
            points[at + 3],
        ),
        segment_at(Verb::CubicTo, points, at) == Segment::CubicTo(
            points[at],
            points[at + 1],
            points[at + 2],
            points[at + 3],
            points[at + 4],
            points[at + 5],
        ),
        segment_at(Verb::Close, points, at) == Segment::Close,
        supplied(verbs, points, n) <==> coordinates_before(verbs, n) <= points.len(),
{
    lemma_coordinates_agree(verbs, verbs.take(n as int).push(verb), n);
}

proof fn lemma_coordinates_agree(a: Seq<Verb>, b: Seq<Verb>, n: nat)
    requires
        n <= a.len(),
        n <= b.len(),
        forall|i: int| 0 <= i < n ==> #[trigger] a[i] == b[i],
    ensures
        coordinates_before(a, n) == coordinates_before(b, n),
    decreases n,
{
    if n > 0 {
        lemma_coordinates_agree(a, b, (n - 1) as nat);
        assert(a[n - 1] == b[n - 1]);
    }
}

/// A refusal is told by its own name.
pub proof fn law_refusal_keeps_its_name()
    ensures
        CanvasRegistryError::of(SlotError::OutOfRange) == CanvasRegistryError::OutOfRange,
        CanvasRegistryError::of(SlotError::StaleHandle) == CanvasRegistryError::StaleHandle,
{
}

} // verus!
