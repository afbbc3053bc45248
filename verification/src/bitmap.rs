//! What an app does with bitmaps. Nothing is decoded: of an image its bytes are
//! kept, and the size that its header names.

use vstd::prelude::*;

use crate::bitmap_registry;
use crate::bitmap_registry::{BitmapHandle, BitmapRegistry, BitmapState};
use crate::slots::Slots;

verus! {

/// The most bytes that an image may have.
pub const BITMAP_DECODE_MAX_BYTES: usize = 67_108_864;

/// How many bytes are asked of a stream at a time where nobody lends a buffer.
pub const DECODE_BUFFER_BYTES: usize = 8192;

/// What a drawable has in place of a native part. It is not zero: there is nothing
/// behind it.
pub const DRAWABLE_HANDLE_SENTINEL: i64 = 0x4452;

/// What a drawable that holds others has in place of a native part.
pub const DRAWABLE_CONTAINER_HANDLE_SENTINEL: i64 = 0x4443;

/// The bytes that begin a PNG file.
pub open spec fn png_signature() -> Seq<u8> {
    seq![0x89u8, 0x50u8, 0x4eu8, 0x47u8, 0x0du8, 0x0au8, 0x1au8, 0x0au8]
}

/// The name of the first chunk of a PNG file.
pub open spec fn png_header_name() -> Seq<u8> {
    seq![0x49u8, 0x48u8, 0x44u8, 0x52u8]
}

/// Four bytes as a number, the most significant first.
pub open spec fn big_endian(bytes: Seq<u8>, at: int) -> u32 {
    (bytes[at] * 0x100_0000 + bytes[at + 1] * 0x1_0000 + bytes[at + 2] * 0x100 + bytes[at
        + 3]) as u32
}

/// The width and the height that the header of a PNG file names.
pub open spec fn png_size(bytes: Seq<u8>) -> Option<(u32, u32)> {
    if bytes.len() >= 24 && bytes.subrange(0, 8) == png_signature() && bytes.subrange(12, 16)
        == png_header_name() {
        Some((big_endian(bytes, 16), big_endian(bytes, 20)))
    } else {
        None
    }
}

fn number_at(bytes: &[u8], at: usize) -> (n: u32)
    requires
        at + 4 <= bytes@.len(),
    ensures
        n == big_endian(bytes@, at as int),
{
    bytes[at] as u32 * 0x100_0000 + bytes[at + 1] as u32 * 0x1_0000 + bytes[at + 2] as u32 * 0x100
        + bytes[at + 3] as u32
}

/// The width and the height that the header of a PNG file names, none where the
/// bytes do not begin as one.
pub fn png_dimensions(bytes: &[u8]) -> (size: Option<(u32, u32)>)
    ensures
        size == png_size(bytes@),
        size is Some <==> bytes@.len() >= 24 && bytes@[0] == 137 && bytes@[1] == 80 && bytes@[2]
            == 78 && bytes@[3] == 71 && bytes@[4] == 13 && bytes@[5] == 10 && bytes@[6] == 26
            && bytes@[7] == 10 && bytes@[12] == 73 && bytes@[13] == 72 && bytes@[14] == 68
            && bytes@[15] == 82,
        size matches Some((w, h)) ==> {
            &&& w == ((bytes@[16] * 256 + bytes@[17]) * 256 + bytes@[18]) * 256 + bytes@[19]
            &&& h == ((bytes@[20] * 256 + bytes@[21]) * 256 + bytes@[22]) * 256 + bytes@[23]
        },
{
    if bytes.len() < 24 {
        return None;
    }
    let signed = bytes[0] == 0x89 && bytes[1] == 0x50 && bytes[2] == 0x4e && bytes[3] == 0x47
        && bytes[4] == 0x0d && bytes[5] == 0x0a && bytes[6] == 0x1a && bytes[7] == 0x0a;
    let headed = bytes[12] == 0x49 && bytes[13] == 0x48 && bytes[14] == 0x44 && bytes[15] == 0x52;
    let ghost start = bytes@.subrange(0, 8);
    let ghost name = bytes@.subrange(12, 16);
    if signed && headed {
        assert(start =~= png_signature());
        assert(name =~= png_header_name());
        Some((number_at(bytes, 16), number_at(bytes, 20)))
    } else {
        proof {
            if start == png_signature() && name == png_header_name() {
                assert(start[0] == 0x89 && start[1] == 0x50 && start[2] == 0x4e && start[3] == 0x47);
                assert(start[4] == 0x0d && start[5] == 0x0a && start[6] == 0x1a && start[7] == 0x0a);
                assert(name[0] == 0x49 && name[1] == 0x48 && name[2] == 0x44 && name[3] == 0x52);
            }
        }
        None
    }
}

/// A length as Java holds it. One that Java cannot hold is the largest that it can.
pub open spec fn java_length(n: u32) -> i32 {
    if n <= i32::MAX {
        n as i32
    } else {
        i32::MAX
    }
}

/// The size that is recorded of an image: what its header names, and nothing where
/// the encoding is not known.
pub open spec fn recorded_size(bytes: Seq<u8>) -> (i32, i32) {
    match png_size(bytes) {
        Some((w, h)) => (java_length(w), java_length(h)),
        None => (0, 0),
    }
}

fn to_java_length(n: u32) -> (length: i32)
    ensures
        length == java_length(n),
{
    if n <= 2_147_483_647 {
        n as i32
    } else {
        i32::MAX
    }
}

/// Whether the table holds a bitmap more.
pub open spec fn bitmap_added(
    before: Slots<BitmapState>,
    after: Slots<BitmapState>,
    handle: BitmapHandle,
    size: (i32, i32),
    bytes: Seq<u8>,
) -> bool {
    if before.has_room() {
        &&& handle == before.next_handle()
        &&& exists|state: BitmapState|
            {
                &&& #[trigger] before.stored(state) == after
                &&& state.width == size.0
                &&& state.height == size.1
                &&& state.bytes@ == bytes
            }
    } else {
        handle == 0 && after == before
    }
}

fn add_bitmap(registry: &mut BitmapRegistry, width: i32, height: i32, bytes: Vec<u8>) -> (handle:
    BitmapHandle)
    requires
        old(registry)@.wf(),
    ensures
        final(registry)@.wf(),
        bitmap_added(old(registry)@, final(registry)@, handle, (width, height), bytes@),
{
    let state = BitmapState { width, height, bytes };
    let ghost stored = old(registry)@.stored(state);
    match bitmap_registry::store(registry, state) {
        Ok(handle) => handle,
        Err(_) => 0,
    }
}

/// Records an image by its bytes and returns its handle, zero where there are too
/// many bytes or no index is left.
pub fn record_bitmap(registry: &mut BitmapRegistry, bytes: Vec<u8>) -> (handle: BitmapHandle)
    requires
        old(registry)@.wf(),
    ensures
        final(registry)@.wf(),
        if bytes@.len() > BITMAP_DECODE_MAX_BYTES {
            handle == 0 && final(registry)@ == old(registry)@
        } else {
            bitmap_added(
                old(registry)@,
                final(registry)@,
                handle,
                recorded_size(bytes@),
                bytes@,
            )
        },
        bytes@.len() > 67_108_864 ==> handle == 0,
        bytes@.len() <= 67_108_864 && old(registry)@.has_room() ==> handle == old(
            registry,
        )@.next_handle(),
{
    if bytes.len() > BITMAP_DECODE_MAX_BYTES {
        return 0;
    }
    let (width, height): (i32, i32) = match png_dimensions(&bytes) {
        Some((w, h)) => (to_java_length(w), to_java_length(h)),
        None => (0, 0),
    };
    add_bitmap(registry, width, height, bytes)
}

/// What comes after a read from a stream.
#[derive(Debug, Clone, Copy, PartialEq, Eq, Structural)]
pub enum DecodeStep {
    /// Another read.
    More,
    /// The stream is at its end.
    End,
    /// The image has too many bytes.
    TooLarge,
}

/// A byte of Java, which has a sign, as a byte.
pub open spec fn byte_of(b: i8) -> u8 {
    if b >= 0 {
        b as u8
    } else {
        (b + 256) as u8
    }
}

/// The bytes that a read brought, where it said that it brought `n`.
pub open spec fn read_bytes(n: i32, buffer: Seq<i8>) -> Seq<u8> {
    if n <= 0 {
        Seq::empty()
    } else {
        buffer.take(
            if n <= buffer.len() {
                n as int
            } else {
                buffer.len() as int
            },
        ).map_values(|b: i8| byte_of(b))
    }
}

/// Adds what a read brought to the bytes of an image: `n` bytes of the buffer, no
/// more than it holds. A read that brought nothing is the last.
pub fn decode_chunk(bytes: &mut Vec<u8>, n: i32, buffer: &[i8]) -> (step: DecodeStep)
    ensures
        final(bytes)@ == old(bytes)@ + read_bytes(n, buffer@),
        final(bytes)@.take(old(bytes)@.len() as int) == old(bytes)@,
        n <= 0 ==> final(bytes)@ == old(bytes)@,
        0 < n <= buffer@.len() ==> final(bytes)@.len() == old(bytes)@.len() + n,
        n > buffer@.len() ==> final(bytes)@.len() == old(bytes)@.len() + buffer@.len(),
        forall|i: int|
            old(bytes)@.len() <= i < final(bytes)@.len() ==> {
                let brought = #[trigger] final(bytes)@[i];
                let read = buffer@[i - old(bytes)@.len()];
                brought == read || brought == read + 256
            },
        step == (if n <= 0 {
            DecodeStep::End
        } else if final(bytes)@.len() > BITMAP_DECODE_MAX_BYTES {
            DecodeStep::TooLarge
        } else {
            DecodeStep::More
        }),
        step == DecodeStep::TooLarge <==> n > 0 && final(bytes)@.len() > 67_108_864,
{
    if n <= 0 {
        assert(bytes@ + Seq::<u8>::empty() =~= bytes@);
        assert(bytes@.take(bytes@.len() as int) =~= bytes@);
        return DecodeStep::End;
    }
    let len: usize = buffer.len();
    let count: usize = if n as u64 <= len as u64 {
        n as usize
    } else {
        len
    };
    let ghost brought = read_bytes(n, buffer@);
    let ghost before = bytes@;
    let mut i: usize = 0;
    while i < count
        invariant
            i <= count,
            count == brought.len(),
            count <= buffer@.len(),
            brought == read_bytes(n, buffer@),
            n > 0,
            bytes@ =~= before + brought.take(i as int),
        decreases count - i,
    {
        let b: i8 = buffer[i];
        assert(brought[i as int] == byte_of(b));
        assert(brought.take(i + 1) =~= brought.take(i as int).push(brought[i as int]));
        bytes.push(
            if b >= 0 {
                b as u8
            } else {
                (b as i32 + 256) as u8
            },
        );
        i += 1;
    }
    assert(brought.take(count as int) =~= brought);
    assert(bytes@.take(before.len() as int) =~= before);
    assert forall|i: int| before.len() <= i < bytes@.len() implies ({
        let read = buffer@[i - before.len()];
        #[trigger] bytes@[i] == read || bytes@[i] == read + 256
    }) by {
        assert(bytes@[i] == brought[i - before.len()]);
    }
    if bytes.len() > BITMAP_DECODE_MAX_BYTES {
        DecodeStep::TooLarge
    } else {
        DecodeStep::More
    }
}

/// The width of a bitmap, zero where the handle is not live.
pub fn get_width(registry: &BitmapRegistry, texture: BitmapHandle) -> (width: i32)
    requires
        registry@.wf(),
    ensures
        width == (if registry@.live(texture) {
            registry@.value(texture).width
        } else {
            0
        }),
{
    match registry.get(texture) {
        Ok(state) => state.width,
        Err(_) => 0,
    }
}

/// The height of a bitmap, zero where the handle is not live.
pub fn get_height(registry: &BitmapRegistry, texture: BitmapHandle) -> (height: i32)
    requires
        registry@.wf(),
    ensures
        height == (if registry@.live(texture) {
            registry@.value(texture).height
        } else {
            0
        }),
{
    match registry.get(texture) {
        Ok(state) => state.height,
        Err(_) => 0,
    }
}

/// The table without the bitmap of a handle, where it had one.
pub open spec fn without(table: Slots<BitmapState>, handle: BitmapHandle) -> Slots<BitmapState> {
    if table.live(handle) {
        table.freed(handle)
    } else {
        table
    }
}

fn drop_bitmap(registry: &mut BitmapRegistry, handle: BitmapHandle)
    requires
        old(registry)@.wf(),
    ensures
        final(registry)@.wf(),
        final(registry)@ == without(old(registry)@, handle),
{
    if handle == 0 {
        proof {
            crate::slots::law_null_handle_is_never_live(registry@);
        }
        return;
    }
    match bitmap_registry::free(registry, handle) {
        Ok(()) => {},
        Err(_) => {},
    }
}

/// Ends a texture and a snapshot, those of the two that are live.
pub fn recycle(registry: &mut BitmapRegistry, texture: BitmapHandle, snapshot: BitmapHandle)
    requires
        old(registry)@.wf(),
    ensures
        final(registry)@.wf(),
        final(registry)@ == without(without(old(registry)@, texture), snapshot),
{
    drop_bitmap(registry, texture);
    drop_bitmap(registry, snapshot);
}

/// The handle itself where it is live, else zero.
pub open spec fn if_live(table: Slots<BitmapState>, handle: BitmapHandle) -> BitmapHandle {
    if table.live(handle) {
        handle
    } else {
        0
    }
}

fn live_or_zero(registry: &BitmapRegistry, handle: BitmapHandle) -> (result: BitmapHandle)
    requires
        registry@.wf(),
    ensures
        result == if_live(registry@, handle),
{
    match registry.get(handle) {
        Ok(_) => handle,
        Err(_) => 0,
    }
}

/// Makes a texture: of a snapshot it is the snapshot itself, where that is live;
/// without one it is blank and has the given size.
pub fn create_texture(
    registry: &mut BitmapRegistry,
    snapshot: BitmapHandle,
    width: i32,
    height: i32,
) -> (handle: BitmapHandle)
    requires
        old(registry)@.wf(),
    ensures
        final(registry)@.wf(),
        if snapshot != 0 {
            handle == if_live(old(registry)@, snapshot) && final(registry)@ == old(registry)@
        } else {
            bitmap_added(
                old(registry)@,
                final(registry)@,
                handle,
                (width, height),
                Seq::empty(),
            )
        },
{
    if snapshot != 0 {
        return live_or_zero(registry, snapshot);
    }
    add_bitmap(registry, width, height, Vec::new())
}

/// Makes a snapshot of a texture: it is the texture itself, where that is live.
pub fn create_snapshot(registry: &BitmapRegistry, texture: BitmapHandle) -> (handle: BitmapHandle)
    requires
        registry@.wf(),
    ensures
        handle == if_live(registry@, texture),
{
    if texture == 0 {
        return 0;
    }
    live_or_zero(registry, texture)
}

/// Makes a paintable of a texture that stretches: it is the texture itself, where
/// that is live.
pub fn nine_patch_from_chunk(registry: &BitmapRegistry, texture: BitmapHandle) -> (handle:
    BitmapHandle)
    requires
        registry@.wf(),
    ensures
        handle == if_live(registry@, texture),
{
    live_or_zero(registry, texture)
}

fn copy_bytes(bytes: &Vec<u8>) -> (copy: Vec<u8>)
    ensures
        copy@ == bytes@,
{
    let mut copy: Vec<u8> = Vec::new();
    let mut i: usize = 0;
    while i < bytes.len()
        invariant
            i <= bytes@.len(),
            copy@ == bytes@.take(i as int),
        decreases bytes@.len() - i,
    {
        copy.push(bytes[i]);
        i += 1;
    }
    assert(bytes@.take(bytes@.len() as int) =~= bytes@);
    copy
}

/// Makes a texture like another one, zero where that is not live or no index is
/// left. Either can be ended without the other.
pub fn ref_texture(registry: &mut BitmapRegistry, texture: BitmapHandle) -> (handle: BitmapHandle)
    requires
        old(registry)@.wf(),
    ensures
        final(registry)@.wf(),
        if old(registry)@.live(texture) {
            bitmap_added(
                old(registry)@,
                final(registry)@,
                handle,
                (old(registry)@.value(texture).width, old(registry)@.value(texture).height),
                old(registry)@.value(texture).bytes@,
            )
        } else {
            handle == 0 && final(registry)@ == old(registry)@
        },
{
    let (width, height, bytes): (i32, i32, Vec<u8>) = match registry.get(texture) {
        Ok(state) => (state.width, state.height, copy_bytes(&state.bytes)),
        Err(_) => {
            return 0;
        },
    };
    add_bitmap(registry, width, height, bytes)
}

/// A texture made like another one stays when the other one ends, and the other one
/// stays when it ends.
pub proof fn law_reference_outlives_its_source(
    table: Slots<BitmapState>,
    texture: BitmapHandle,
    copy: BitmapState,
)
    requires
        table.wf(),
        table.live(texture),
        table.has_room(),
    ensures
        ({
            let handle = table.next_handle();
            let after = without(table.stored(copy), texture);
            &&& handle != texture
            &&& after.live(handle)
            &&& after.value(handle) == copy
            &&& !after.live(texture)
            &&& without(table.stored(copy), handle).live(texture)
            &&& without(table.stored(copy), handle).value(texture) == table.value(texture)
        }),
{
    crate::slots::law_stored_value_is_read_back(table, copy);
    let with_copy = table.stored(copy);
    crate::slots::law_live_handles_do_not_share_a_slot(with_copy, texture, table.next_handle());
    crate::slots::law_live_handles_do_not_share_a_slot(with_copy, table.next_handle(), texture);
    crate::slots::law_freed_handle_is_stale(with_copy, texture);
}

/// A texture and a snapshot made of it are one bitmap: to end both ends it once.
pub proof fn law_snapshot_and_texture_end_together(table: Slots<BitmapState>, texture: BitmapHandle)
    requires
        table.wf(),
        table.live(texture),
    ensures
        without(without(table, texture), if_live(table, texture)) == table.freed(texture),
{
    crate::slots::law_freed_handle_is_stale(table, texture);
}

/// What is recorded of an image is found under its handle: the size that its header names,
/// cut off at the largest that Java can hold, and its bytes. Every other bitmap stays.
pub proof fn law_recorded_image_is_found(
    before: Slots<BitmapState>,
    after: Slots<BitmapState>,
    handle: BitmapHandle,
    bytes: Seq<u8>,
    other: BitmapHandle,
)
    requires
        before.wf(),
        before.has_room(),
        bitmap_added(before, after, handle, recorded_size(bytes), bytes),
    ensures
        handle != 0,
        !before.live(handle),
        after.live(handle),
        after.value(handle).bytes@ == bytes,
        png_size(bytes) is None ==> after.value(handle).width == 0 && after.value(handle).height
            == 0,
        png_size(bytes) matches Some((w, h)) ==> {
            &&& w <= i32::MAX ==> after.value(handle).width == w
            &&& w > i32::MAX ==> after.value(handle).width == i32::MAX
            &&& h <= i32::MAX ==> after.value(handle).height == h
            &&& h > i32::MAX ==> after.value(handle).height == i32::MAX
        },
        before.live(other) ==> after.live(other) && after.value(other) == before.value(other),
{
    let state = choose|state: BitmapState|
        {
            &&& #[trigger] before.stored(state) == after
            &&& state.width == recorded_size(bytes).0
            &&& state.height == recorded_size(bytes).1
            &&& state.bytes@ == bytes
        };
    crate::slots::law_stored_value_is_read_back(before, state);
}

/// A bitmap that was added has the size and the bytes that it was added with.
pub proof fn law_added_bitmap_is_found(
    before: Slots<BitmapState>,
    after: Slots<BitmapState>,
    handle: BitmapHandle,
    size: (i32, i32),
    bytes: Seq<u8>,
)
    requires
        before.wf(),
        bitmap_added(before, after, handle, size, bytes),
    ensures
        before.has_room() ==> after.live(handle) && after.value(handle).width == size.0
            && after.value(handle).height == size.1 && after.value(handle).bytes@ == bytes,
        !before.has_room() ==> handle == 0 && after == before,
{
    if before.has_room() {
        let state = choose|state: BitmapState|
            {
                &&& #[trigger] before.stored(state) == after
                &&& state.width == size.0
                &&& state.height == size.1
                &&& state.bytes@ == bytes
            };
        crate::slots::law_stored_value_is_read_back(before, state);
    }
}

/// A bitmap that ends is gone, and no other one is; a handle that names none ends nothing
/// and is told as zero.
pub proof fn law_bitmap_ends_alone(
    table: Slots<BitmapState>,
    handle: BitmapHandle,
    other: BitmapHandle,
)
    requires
        table.wf(),
        other != handle,
    ensures
        !without(table, handle).live(handle),
        table.live(other) ==> without(table, handle).live(other) && without(table, handle).value(
            other,
        ) == table.value(other),
        !table.live(handle) ==> without(table, handle) == table && if_live(table, handle) == 0,
        table.live(handle) ==> if_live(table, handle) == handle,
{
    if table.live(handle) {
        crate::slots::law_freed_handle_is_stale(table, handle);
        if table.live(other) {
            crate::slots::law_live_handles_do_not_share_a_slot(table, handle, other);
        }
    }
}

} // verus!
