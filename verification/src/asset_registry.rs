//! Opened assets, each a byte stream with a read position, behind handles.

use vstd::prelude::*;

use crate::slots;
use crate::slots::{SlotError, SlotTable};

verus! {

/// A handle to an opened asset. Zero is never the handle of one.
pub type AssetHandle = i64;

/// Every asset that is open.
pub type AssetRegistry = SlotTable<AssetStream>;

/// Why an asset could not be reached.
#[derive(Debug, Clone, Copy, PartialEq, Eq, Structural)]
pub enum AssetRegistryError {
    OutOfRange,
    StaleHandle,
    Poisoned,
}

impl AssetRegistryError {
    /// The error that a slot table reports, as this registry reports it.
    pub open spec fn of(error: SlotError) -> Self {
        match error {
            SlotError::OutOfRange => AssetRegistryError::OutOfRange,
            SlotError::StaleHandle => AssetRegistryError::StaleHandle,
        }
    }

    fn from_slot(error: SlotError) -> (e: Self)
        ensures
            e == Self::of(error),
    {
        match error {
            SlotError::OutOfRange => AssetRegistryError::OutOfRange,
            SlotError::StaleHandle => AssetRegistryError::StaleHandle,
        }
    }

    /// The message that an error is shown with.
    pub fn message(&self) -> (text: &'static str)
        ensures
            text@ == match *self {
                AssetRegistryError::OutOfRange =>
                    "asset handle slot index is out of range (fabricated or null handle)"@,
                AssetRegistryError::StaleHandle =>
                    "asset handle refers to a freed slot (stale generation)"@,
                AssetRegistryError::Poisoned => "asset registry mutex was poisoned"@,
            },
    {
        match self {
            AssetRegistryError::OutOfRange => {
                "asset handle slot index is out of range (fabricated or null handle)"
            },
            AssetRegistryError::StaleHandle => {
                "asset handle refers to a freed slot (stale generation)"
            },
            AssetRegistryError::Poisoned => "asset registry mutex was poisoned",
        }
    }
}

/// The bytes of an opened asset and the position of the next read.
#[derive(Debug)]
pub struct AssetStream {
    data: Vec<u8>,
    pos: usize,
}

/// What an `AssetStream` holds.
#[verifier::ext_equal]
pub struct Stream {
    pub data: Seq<u8>,
    pub pos: int,
}

impl Stream {
    /// The stream over `data`, at its beginning.
    pub open spec fn open(data: Seq<u8>) -> Self {
        Stream { data, pos: 0 }
    }

    /// The number of bytes between the position and the end.
    pub open spec fn remaining(self) -> int {
        self.data.len() - self.pos
    }

    /// How many bytes a read of up to `want` bytes yields.
    pub open spec fn read_len(self, want: int) -> int {
        if want < self.remaining() {
            want
        } else {
            self.remaining()
        }
    }

    /// The bytes that a read of up to `want` bytes yields.
    pub open spec fn read_bytes(self, want: int) -> Seq<u8> {
        self.data.subrange(self.pos, self.pos + self.read_len(want))
    }

    /// The stream at another position.
    pub open spec fn at(self, pos: int) -> Self {
        Stream { data: self.data, pos }
    }

    /// The position that a seek asks for: `whence` 0 counts from the beginning,
    /// 1 from the present position, 2 from the end.
    pub open spec fn seek_target(self, offset: int, whence: int) -> Option<int> {
        if whence == 0 {
            Some(offset)
        } else if whence == 1 {
            Some(self.pos + offset)
        } else if whence == 2 {
            Some(self.data.len() + offset)
        } else {
            None
        }
    }

    /// Whether a seek stays within the stream; the end itself is within it.
    pub open spec fn seek_ok(self, offset: int, whence: int) -> bool {
        match self.seek_target(offset, whence) {
            Some(target) => 0 <= target <= self.data.len(),
            None => false,
        }
    }
}

impl View for AssetStream {
    type V = Stream;

    closed spec fn view(&self) -> Stream {
        Stream { data: self.data@, pos: self.pos as int }
    }
}

impl AssetStream {
    /// The position is never past the end, and the length can be reported as a
    /// signed offset.
    #[verifier::type_invariant]
    spec fn inv(self) -> bool {
        self.pos <= self.data@.len() <= i64::MAX
    }

    /// The number of bytes of the asset.
    #[must_use]
    pub fn len(&self) -> (n: usize)
        ensures
            n == self@.data.len(),
    {
        self.data.len()
    }

    /// Whether the asset has no bytes.
    #[must_use]
    pub fn is_empty(&self) -> (b: bool)
        ensures
            b == (self@.data.len() == 0),
    {
        self.data.len() == 0
    }

    /// The number of bytes that are still to be read.
    #[must_use]
    pub fn remaining(&self) -> (n: usize)
        ensures
            n == self@.remaining(),
            0 <= self@.pos <= self@.data.len(),
    {
        proof {
            use_type_invariant(self);
        }
        self.data.len() - self.pos
    }

    /// Copies the next bytes into the front of `out`, as many as fit and as are
    /// left, and advances by that number. The rest of `out` keeps its bytes.
    pub fn read(&mut self, out: &mut [u8]) -> (n: usize)
        ensures
            0 <= old(self)@.pos <= old(self)@.data.len(),
            n == old(self)@.read_len(old(out)@.len() as int),
            final(out)@ == old(self)@.read_bytes(old(out)@.len() as int) + old(out)@.subrange(
                n as int,
                old(out)@.len() as int,
            ),
            final(self)@ == old(self)@.at(old(self)@.pos + n),
    {
        proof {
            use_type_invariant(&*self);
        }
        let len: usize = self.data.len();
        let left: usize = self.remaining();
        let n: usize = if out.len() < left {
            out.len()
        } else {
            left
        };
        let ghost before = out@;
        let mut k: usize = 0;
        while k < n
            invariant
                k <= n <= out@.len(),
                out@.len() == before.len(),
                self.pos + n <= self.data@.len() == len,
                self@ == old(self)@,
                forall|i: int| 0 <= i < k ==> out@[i] == self.data@[self.pos + i],
                forall|i: int| k <= i < before.len() ==> out@[i] == before[i],
            decreases n - k,
        {
            out[k] = self.data[self.pos + k];
            k += 1;
        }
        assert(out@ =~= self@.read_bytes(before.len() as int) + before.subrange(
            n as int,
            before.len() as int,
        ));
        self.pos = self.pos + n;
        n
    }

    /// Moves the position and returns it, or returns -1 and stays where the
    /// target lies outside the stream or `whence` is unknown.
    pub fn seek(&mut self, offset: i64, whence: i32) -> (pos: i64)
        ensures
            old(self)@.seek_ok(offset as int, whence as int) ==> {
                &&& Some(pos as int) == old(self)@.seek_target(offset as int, whence as int)
                &&& final(self)@ == old(self)@.at(pos as int)
            },
            !old(self)@.seek_ok(offset as int, whence as int) ==> pos == -1 && final(self)@
                == old(self)@,
    {
        proof {
            use_type_invariant(&*self);
        }
        let base: i64 = match whence {
            0 => 0,
            1 => self.pos as i64,
            2 => self.data.len() as i64,
            _ => {
                return -1;
            },
        };
        let new: i64 = match base.checked_add(offset) {
            Some(new) => new,
            None => {
                return -1;
            },
        };
        if new < 0 || new as u64 > self.data.len() as u64 {
            return -1;
        }
        self.pos = new as usize;
        new
    }
}

/// The handle of a slot index and a generation.
pub fn pack(index: u32, generation: u32) -> (handle: AssetHandle)
    ensures
        handle == crate::slots::handle_of(index, generation),
        crate::slots::handle_index(handle) == index,
        crate::slots::handle_generation(handle) == generation,
{
    slots::pack(index, generation)
}

/// The slot index and the generation of a handle.
pub fn unpack(handle: AssetHandle) -> (parts: (u32, u32))
    ensures
        parts.0 == crate::slots::handle_index(handle),
        parts.1 == crate::slots::handle_generation(handle),
        crate::slots::handle_of(parts.0, parts.1) == handle,
{
    slots::unpack(handle)
}

/// Opens a stream over `data` and returns its handle. The only failure is that
/// no index is left.
pub fn store(registry: &mut AssetRegistry, data: Vec<u8>) -> (result: Result<
    AssetHandle,
    AssetRegistryError,
>)
    requires
        old(registry)@.wf(),
        data@.len() <= isize::MAX,
    ensures
        final(registry)@.wf(),
        old(registry)@.has_room() ==> result == Ok::<AssetHandle, AssetRegistryError>(
            old(registry)@.next_handle(),
        ) && exists|stream: AssetStream|
            stream@ == Stream::open(data@) && #[trigger] old(registry)@.stored(stream)
                == final(registry)@,
        !old(registry)@.has_room() ==> result == Err::<AssetHandle, AssetRegistryError>(
            AssetRegistryError::OutOfRange,
        ) && final(registry)@ == old(registry)@,
{
    let stream = AssetStream { data, pos: 0 };
    assert(stream@ =~= Stream::open(data@));
    match registry.store(stream) {
        Ok(handle) => Ok(handle),
        Err(e) => Err(AssetRegistryError::from_slot(e)),
    }
}

/// Applies `f` to the stream that `handle` names.
pub fn with_stream<R, F: FnOnce(&mut AssetStream) -> R>(
    registry: &mut AssetRegistry,
    handle: AssetHandle,
    f: F,
) -> (result: Result<R, AssetRegistryError>)
    requires
        old(registry)@.wf(),
        old(registry)@.live(handle) ==> crate::slots::applicable(f, old(registry)@.value(handle)),
    ensures
        final(registry)@.wf(),
        old(registry)@.live(handle) ==> {
            let after = final(registry)@.value(handle);
            &&& result is Ok
            &&& exists|x: &mut AssetStream| #[trigger]
                f.ensures((x,), result->Ok_0) && *x == old(registry)@.value(handle) && *final(x)
                    == after
            &&& final(registry)@ == old(registry)@.updated(handle, after)
        },
        !old(registry)@.live(handle) ==> result == Err::<R, AssetRegistryError>(
            AssetRegistryError::of(old(registry)@.refusal(handle)),
        ) && final(registry)@ == old(registry)@,
{
    let ghost before = registry@;
    match registry.with(handle, f) {
        Ok(output) => {
            let ghost given = choose|x: &mut AssetStream| #[trigger]
                f.ensures((x,), output) && *x == before.value(handle) && *final(x)
                    == registry@.value(handle);
            let result = Ok(output);
            assert(f.ensures((given,), result->Ok_0));
            result
        },
        Err(e) => Err(AssetRegistryError::from_slot(e)),
    }
}

/// Closes the stream that `handle` names.
pub fn free(registry: &mut AssetRegistry, handle: AssetHandle) -> (result: Result<
    (),
    AssetRegistryError,
>)
    requires
        old(registry)@.wf(),
    ensures
        final(registry)@.wf(),
        old(registry)@.live(handle) ==> result is Ok && final(registry)@ == old(registry)@.freed(
            handle,
        ),
        !old(registry)@.live(handle) ==> result == Err::<(), AssetRegistryError>(
            AssetRegistryError::of(old(registry)@.refusal(handle)),
        ) && final(registry)@ == old(registry)@,
{
    match registry.free(handle) {
        Ok(()) => Ok(()),
        Err(e) => Err(AssetRegistryError::from_slot(e)),
    }
}

/// Two reads in a row yield what one read of both lengths yields.
pub proof fn law_reads_are_sequential(stream: Stream, first: int, second: int)
    requires
        0 <= stream.pos <= stream.data.len(),
        0 <= first,
        0 <= second,
    ensures
        ({
            let next = stream.at(stream.pos + stream.read_len(first));
            &&& stream.read_bytes(first) + next.read_bytes(second) =~= stream.read_bytes(
                first + second,
            )
            &&& next.pos + next.read_len(second) == stream.pos + stream.read_len(first + second)
        }),
{
}

/// A seek to a position that was reported before makes the next read yield
/// the bytes from there, and a seek by nothing from the present position only
/// reports it.
pub proof fn law_seek_returns_to_a_position(stream: Stream, pos: int)
    requires
        0 <= stream.pos <= stream.data.len(),
        0 <= pos <= stream.data.len(),
    ensures
        stream.seek_ok(pos, 0),
        stream.seek_target(pos, 0) == Some(pos),
        stream.at(pos).remaining() == stream.data.len() - pos,
        stream.seek_ok(0, 1),
        stream.seek_target(0, 1) == Some(stream.pos),
        stream.at(stream.pos) == stream,
{
}

/// A read yields the bytes that come next, as many as are asked for and as are left, and
/// the next read goes on behind them. Nothing else about the stream changes.
pub proof fn law_read_takes_the_next_bytes(stream: Stream, want: int, i: int)
    requires
        0 <= stream.pos <= stream.data.len(),
        0 <= want,
    ensures
        want <= stream.data.len() - stream.pos ==> stream.read_len(want) == want,
        want > stream.data.len() - stream.pos ==> stream.read_len(want) == stream.data.len()
            - stream.pos,
        stream.read_bytes(want).len() == stream.read_len(want),
        0 <= i < stream.read_len(want) ==> stream.read_bytes(want)[i] == stream.data[stream.pos
            + i],
        stream.remaining() == stream.data.len() - stream.pos,
        stream.at(i).data == stream.data,
        stream.at(i).pos == i,
        Stream::open(stream.data).pos == 0,
        Stream::open(stream.data).data == stream.data,
{
}

/// A seek counts from the beginning, from the present position or from the end, and goes
/// nowhere outside the stream.
pub proof fn law_seek_counts_from_its_origin(stream: Stream, offset: int, whence: int)
    ensures
        stream.seek_ok(offset, 0) <==> 0 <= offset <= stream.data.len(),
        stream.seek_ok(offset, 1) <==> 0 <= stream.pos + offset <= stream.data.len(),
        stream.seek_ok(offset, 2) <==> -stream.data.len() <= offset <= 0,
        stream.seek_target(offset, 0) == Some(offset),
        stream.seek_target(offset, 1) == Some(stream.pos + offset),
        stream.seek_target(offset, 2) == Some(stream.data.len() + offset),
        whence != 0 && whence != 1 && whence != 2 ==> !stream.seek_ok(offset, whence),
{
}

/// A refusal is told by its own name.
pub proof fn law_refusal_keeps_its_name()
    ensures
        AssetRegistryError::of(SlotError::OutOfRange) == AssetRegistryError::OutOfRange,
        AssetRegistryError::of(SlotError::StaleHandle) == AssetRegistryError::StaleHandle,
{
}

} // verus!
