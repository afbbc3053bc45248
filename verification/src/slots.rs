//! A table of slots addressed by generation-tagged handles.
//!
//! A handle packs a slot index into its low 32 bits and the generation of that
//! slot into its high 32 bits. Freeing a slot raises its generation, so a handle
//! that outlives its value is recognised as stale, also after the slot has been
//! given to another value.

use vstd::prelude::*;

verus! {

/// The slot index that a handle carries: its low 32 bits.
pub open spec fn handle_index(handle: i64) -> u32 {
    ((handle as u64) & 0xFFFF_FFFFu64) as u32
}

/// The generation that a handle carries: its high 32 bits.
pub open spec fn handle_generation(handle: i64) -> u32 {
    ((handle as u64) >> 32u64) as u32
}

/// The handle that carries `index` and `generation`.
pub open spec fn handle_of(index: u32, generation: u32) -> i64 {
    (((generation as u64) << 32u64) | (index as u64)) as i64
}

/// A handle is read back as the index and the generation that it was made of.
pub proof fn lemma_handle_round_trip(index: u32, generation: u32)
    ensures
        handle_index(handle_of(index, generation)) == index,
        handle_generation(handle_of(index, generation)) == generation,
{
    assert((((((((generation as u64) << 32u64) | (index as u64)) as i64) as u64)
        & 0xFFFF_FFFFu64) as u32) == index) by (bit_vector);
    assert((((((((generation as u64) << 32u64) | (index as u64)) as i64) as u64) >> 32u64) as u32)
        == generation) by (bit_vector);
}

/// Every 64-bit value is the handle of its own index and generation, so two
/// handles that agree on both are the same handle.
pub proof fn lemma_handle_is_its_parts(handle: i64)
    ensures
        handle_of(handle_index(handle), handle_generation(handle)) == handle,
{
    assert((((((((handle as u64) >> 32u64) as u32) as u64) << 32u64) | (((((handle as u64)
        & 0xFFFF_FFFFu64) as u32)) as u64)) as i64) == handle) by (bit_vector);
}

/// A handle with a generation of at least one is not the null handle.
pub proof fn lemma_handle_nonzero(index: u32, generation: u32)
    requires
        generation >= 1,
    ensures
        handle_of(index, generation) != 0,
{
    assert(generation >= 1 ==> ((((generation as u64) << 32u64) | (index as u64)) as i64) != 0)
        by (bit_vector);
}

/// Packs a slot index and a generation into a handle.
pub fn pack(index: u32, generation: u32) -> (handle: i64)
    ensures
        handle == handle_of(index, generation),
        handle_index(handle) == index,
        handle_generation(handle) == generation,
        handle == generation * 0x1_0000_0000 + index || handle == generation * 0x1_0000_0000 + index
            - 0x1_0000_0000_0000_0000,
{
    proof {
        lemma_handle_round_trip(index, generation);
        assert(((((generation as u64) << 32u64) | (index as u64)) as i64) == generation
            * 0x1_0000_0000 + index || ((((generation as u64) << 32u64) | (index as u64)) as i64)
            == generation * 0x1_0000_0000 + index - 0x1_0000_0000_0000_0000) by (bit_vector);
    }
    (((generation as u64) << 32u64) | (index as u64)) as i64
}

/// Splits a handle into its slot index and its generation.
pub fn unpack(handle: i64) -> (parts: (u32, u32))
    ensures
        parts.0 == handle_index(handle),
        parts.1 == handle_generation(handle),
        handle_of(parts.0, parts.1) == handle,
{
    proof {
        lemma_handle_is_its_parts(handle);
    }
    let bits: u64 = handle as u64;
    ((bits & 0xFFFF_FFFFu64) as u32, (bits >> 32u64) as u32)
}

/// Whether `f` may be called on `value`.
pub open spec fn applicable<T, R, F: FnOnce(&mut T) -> R>(f: F, value: T) -> bool {
    forall|x: &mut T| *x == value ==> #[trigger] f.requires((x,))
}

/// Why a handle does not name a live value, or why no handle could be made.
#[derive(Debug, Clone, Copy, PartialEq, Eq, Structural)]
pub enum SlotError {
    /// The index lies past the last slot, or no further index can be named.
    OutOfRange,
    /// The slot exists, and the handle's value is no longer in it.
    StaleHandle,
}

/// One slot: the generation that its next or present handle carries, and the
/// value that it holds.
pub struct Slot<T> {
    generation: u32,
    state: Option<T>,
}

/// A growing table of slots and the list of those that are free.
pub struct SlotTable<T> {
    slots: Vec<Slot<T>>,
    free: Vec<u32>,
}

/// What a `SlotTable` holds.
#[verifier::ext_equal]
pub struct Slots<T> {
    /// The generation of each slot.
    pub generations: Seq<u32>,
    /// The value of each slot, `None` where the slot is free.
    pub states: Seq<Option<T>>,
    /// The free slots, the one to be used next at the end.
    pub free: Seq<u32>,
}

impl<T> Slots<T> {
    /// The empty table.
    pub open spec fn empty() -> Self {
        Slots { generations: Seq::empty(), states: Seq::empty(), free: Seq::empty() }
    }

    /// Every free slot is listed once and holds nothing, every other slot holds
    /// a value, and generations start at one.
    pub open spec fn wf(self) -> bool {
        &&& self.generations.len() == self.states.len()
        &&& self.states.len() <= u32::MAX + 1
        &&& forall|i: int| 0 <= i < self.generations.len() ==> #[trigger] self.generations[i] >= 1
        &&& forall|k: int|
            0 <= k < self.free.len() ==> (#[trigger] self.free[k]) < self.states.len()
                && self.states[self.free[k] as int] is None
        &&& forall|j: int, k: int|
            0 <= j < k < self.free.len() ==> #[trigger] self.free[j] != #[trigger] self.free[k]
        &&& forall|i: int|
            0 <= i < self.states.len() && (#[trigger] self.states[i]) is None
                ==> self.free.contains(i as u32)
    }

    /// Whether the handle's index names a slot.
    pub open spec fn in_range(self, handle: i64) -> bool {
        handle_index(handle) < self.states.len()
    }

    /// Whether the handle names a value that is in the table.
    pub open spec fn live(self, handle: i64) -> bool {
        &&& self.in_range(handle)
        &&& self.generations[handle_index(handle) as int] == handle_generation(handle)
        &&& self.states[handle_index(handle) as int] is Some
    }

    /// The value that a live handle names.
    pub open spec fn value(self, handle: i64) -> T
        recommends
            self.live(handle),
    {
        self.states[handle_index(handle) as int]->0
    }

    /// Why a handle that is not live is refused.
    pub open spec fn refusal(self, handle: i64) -> SlotError {
        if self.in_range(handle) {
            SlotError::StaleHandle
        } else {
            SlotError::OutOfRange
        }
    }

    /// Whether there is a slot for one more value.
    pub open spec fn has_room(self) -> bool {
        self.free.len() > 0 || self.states.len() <= u32::MAX
    }

    /// The handle that the next stored value gets.
    pub open spec fn next_handle(self) -> i64 {
        if self.free.len() > 0 {
            handle_of(self.free.last(), self.generations[self.free.last() as int])
        } else {
            handle_of(self.states.len() as u32, 1)
        }
    }

    /// The table after `value` was stored under `next_handle`.
    pub open spec fn stored(self, value: T) -> Self {
        if self.free.len() > 0 {
            Slots {
                generations: self.generations,
                states: self.states.update(self.free.last() as int, Some(value)),
                free: self.free.drop_last(),
            }
        } else {
            Slots {
                generations: self.generations.push(1),
                states: self.states.push(Some(value)),
                free: self.free,
            }
        }
    }

    /// The table after the value of a live handle was replaced.
    pub open spec fn updated(self, handle: i64, value: T) -> Self {
        Slots {
            generations: self.generations,
            states: self.states.update(handle_index(handle) as int, Some(value)),
            free: self.free,
        }
    }

    /// The table after a live handle was freed. A generation that has reached
    /// its maximum stays there.
    pub open spec fn freed(self, handle: i64) -> Self {
        let index = handle_index(handle) as int;
        let generation = self.generations[index];
        Slots {
            generations: self.generations.update(
                index,
                if generation < u32::MAX { (generation + 1) as u32 } else { generation },
            ),
            states: self.states.update(index, None),
            free: self.free.push(handle_index(handle)),
        }
    }

    /// Whether a handle was issued for a slot and that slot has moved on to a
    /// later generation.
    pub open spec fn spent(self, handle: i64) -> bool {
        self.in_range(handle) && handle_generation(handle)
            < self.generations[handle_index(handle) as int]
    }
}

impl<T> View for SlotTable<T> {
    type V = Slots<T>;

    closed spec fn view(&self) -> Slots<T> {
        Slots {
            generations: self.slots@.map_values(|s: Slot<T>| s.generation),
            states: self.slots@.map_values(|s: Slot<T>| s.state),
            free: self.free@,
        }
    }
}

impl<T> SlotTable<T> {
    /// An empty table.
    pub fn new() -> (table: Self)
        ensures
            table@ == Slots::<T>::empty(),
            table@.wf(),
    {
        let table = SlotTable { slots: Vec::new(), free: Vec::new() };
        assert(table@ =~= Slots::<T>::empty());
        table
    }

    /// Puts a value into the slot that was freed last, or into a new slot if
    /// none is free, and returns its handle. Fails only where every index that a
    /// handle can carry is taken.
    pub fn store(&mut self, value: T) -> (result: Result<i64, SlotError>)
        requires
            old(self)@.wf(),
        ensures
            final(self)@.wf(),
            old(self)@.has_room() ==> result == Ok::<i64, SlotError>(old(self)@.next_handle())
                && final(self)@ == old(self)@.stored(value),
            !old(self)@.has_room() ==> result == Err::<i64, SlotError>(SlotError::OutOfRange)
                && final(self)@ == old(self)@,
    {
        let ghost before = self@;
        proof {
            if before.has_room() {
                lemma_stored(before, value);
            }
        }
        if let Some(index) = self.free.pop() {
            assert(index == before.free.last());
            let generation: u32 = self.slots[index as usize].generation;
            self.slots[index as usize].state = Some(value);
            assert(self@ =~= before.stored(value));
            return Ok(pack(index, generation));
        }
        let count: usize = self.slots.len();
        if count > u32::MAX as usize {
            assert(self@ =~= before);
            return Err(SlotError::OutOfRange);
        }
        let index: u32 = count as u32;
        self.slots.push(Slot { generation: 1, state: Some(value) });
        assert(self@ =~= before.stored(value));
        Ok(pack(index, 1))
    }

    /// The value that a live handle names, to be read or changed in place.
    pub fn get_mut(&mut self, handle: i64) -> (result: Result<&mut T, SlotError>)
        requires
            old(self)@.wf(),
        ensures
            old(self)@.live(handle) ==> result is Ok && *(result->Ok_0) == old(self)@.value(handle)
                && final(self)@ == old(self)@.updated(handle, *final(result->Ok_0)),
            !old(self)@.live(handle) ==> result is Err && result->Err_0 == old(self)@.refusal(
                handle,
            ) && final(self)@ == old(self)@,
    {
        let ghost before = self@;
        let (index, generation) = unpack(handle);
        if index as usize >= self.slots.len() {
            return Err(SlotError::OutOfRange);
        }
        if self.slots[index as usize].generation != generation {
            return Err(SlotError::StaleHandle);
        }
        let slot = &mut self.slots[index as usize];
        match &mut slot.state {
            None => Err(SlotError::StaleHandle),
            Some(value) => {
                Ok(value)
            },
        }
    }

    /// The value that a live handle names.
    pub fn get(&self, handle: i64) -> (result: Result<&T, SlotError>)
        requires
            self@.wf(),
        ensures
            self@.live(handle) ==> result is Ok && *(result->Ok_0) == self@.value(handle),
            !self@.live(handle) ==> result is Err && result->Err_0 == self@.refusal(handle),
    {
        let (index, generation) = unpack(handle);
        if index as usize >= self.slots.len() {
            return Err(SlotError::OutOfRange);
        }
        let slot = &self.slots[index as usize];
        if slot.generation != generation {
            return Err(SlotError::StaleHandle);
        }
        match &slot.state {
            None => Err(SlotError::StaleHandle),
            Some(value) => Ok(value),
        }
    }

    /// The number of slots, free ones included.
    pub fn slot_count(&self) -> (n: usize)
        ensures
            n == self@.states.len(),
    {
        self.slots.len()
    }

    /// The handle and the value of a slot, none where it is free.
    pub fn entry(&self, index: usize) -> (entry: Option<(i64, &T)>)
        requires
            self@.wf(),
            index < self@.states.len(),
        ensures
            match entry {
                Some((handle, value)) => {
                    &&& handle == handle_of(index as u32, self@.generations[index as int])
                    &&& self@.live(handle)
                    &&& *value == self@.value(handle)
                    &&& self@.states[index as int] == Some(*value)
                },
                None => self@.states[index as int] is None,
            },
    {
        let slot = &self.slots[index];
        match &slot.state {
            Some(value) => Some((pack(index as u32, slot.generation), value)),
            None => None,
        }
    }

    /// Drops the value that a live handle names. The slot moves to its next
    /// generation and is the first to be used again.
    pub fn free(&mut self, handle: i64) -> (result: Result<(), SlotError>)
        requires
            old(self)@.wf(),
        ensures
            final(self)@.wf(),
            old(self)@.live(handle) ==> result is Ok && final(self)@ == old(self)@.freed(handle),
            !old(self)@.live(handle) ==> result == Err::<(), SlotError>(old(self)@.refusal(handle))
                && final(self)@ == old(self)@,
    {
        let ghost before = self@;
        let (index, generation) = unpack(handle);
        if index as usize >= self.slots.len() {
            return Err(SlotError::OutOfRange);
        }
        if self.slots[index as usize].generation != generation || self.slots[index as usize].state.is_none() {
            return Err(SlotError::StaleHandle);
        }
        proof {
            lemma_freed(before, handle);
        }
        let next: u32 = generation.saturating_add(1);
        self.slots[index as usize].state = None;
        self.slots[index as usize].generation = next;
        self.free.push(index);
        assert(self@ =~= before.freed(handle));
        Ok(())
    }

    /// Applies `f` to the value that a live handle names.
    pub fn with<R, F: FnOnce(&mut T) -> R>(&mut self, handle: i64, f: F) -> (result: Result<
        R,
        SlotError,
    >)
        requires
            old(self)@.wf(),
            old(self)@.live(handle) ==> applicable(f, old(self)@.value(handle)),
        ensures
            final(self)@.wf(),
            old(self)@.live(handle) ==> {
                &&& result is Ok
                &&& exists|x: &mut T| #[trigger]
                    f.ensures((x,), result->Ok_0) && *x == old(self)@.value(handle) && *final(x)
                        == final(self)@.value(handle)
                &&& final(self)@ == old(self)@.updated(handle, final(self)@.value(handle))
            },
            !old(self)@.live(handle) ==> result == Err::<R, SlotError>(old(self)@.refusal(handle))
                && final(self)@ == old(self)@,
    {
        let ghost before = self@;
        let value = match self.get_mut(handle) {
            Err(e) => {
                return Err(e);
            },
            Ok(value) => value,
        };
        let output = apply(value, f);
        let ghost given = choose|x: &mut T| #[trigger]
            f.ensures((x,), output) && *x == before.value(handle) && *final(x) == *value;
        let result = Ok(output);
        proof {
            assert(f.ensures((given,), result->Ok_0));
            lemma_updated(before, handle, *final(value));
        }
        result
    }
}

/// Calls `f` on `value`.
fn apply<T, R, F: FnOnce(&mut T) -> R>(value: &mut T, f: F) -> (output: R)
    requires
        applicable(f, *old(value)),
    ensures
        exists|x: &mut T| #[trigger]
            f.ensures((x,), output) && *x == *old(value) && *final(x) == *final(value),
{
    f(value)
}

/// Replacing a value keeps the table well formed.
proof fn lemma_updated<T>(table: Slots<T>, handle: i64, value: T)
    requires
        table.wf(),
        table.live(handle),
    ensures
        table.updated(handle, value).wf(),
{
    let next = table.updated(handle, value);
    assert forall|i: int| 0 <= i < next.states.len() && (#[trigger] next.states[i]) is None
        implies next.free.contains(i as u32) by {
        assert(table.states[i] is None);
    }
}

/// Freeing keeps the table well formed.
proof fn lemma_freed<T>(table: Slots<T>, handle: i64)
    requires
        table.wf(),
        table.live(handle),
    ensures
        table.freed(handle).wf(),
{
    let next = table.freed(handle);
    let index = handle_index(handle);
    assert forall|i: int| 0 <= i < next.states.len() && (#[trigger] next.states[i]) is None
        implies next.free.contains(i as u32) by {
        if i == index {
            assert(next.free[next.free.len() - 1] == index);
        } else {
            assert(table.states[i] is None);
            let k = table.free.index_of(i as u32);
            assert(next.free[k] == i as u32);
        }
    }
}

/// Storing keeps the table well formed.
proof fn lemma_stored<T>(table: Slots<T>, value: T)
    requires
        table.wf(),
        table.has_room(),
    ensures
        table.stored(value).wf(),
{
    let next = table.stored(value);
    if table.free.len() > 0 {
        let used = table.free.last();
        assert forall|i: int| 0 <= i < next.states.len() && (#[trigger] next.states[i]) is None
            implies next.free.contains(i as u32) by {
            assert(table.states[i] is None);
            let k = table.free.index_of(i as u32);
            assert(table.free[k] == i as u32);
            assert(i != used);
            assert(next.free[k] == i as u32);
        }
        assert forall|k: int| 0 <= k < next.free.len() implies (#[trigger] next.free[k])
            < next.states.len() && next.states[next.free[k] as int] is None by {
            assert(table.free[k] != table.free[table.free.len() - 1]);
        }
    } else {
        assert forall|i: int| 0 <= i < next.states.len() && (#[trigger] next.states[i]) is None
            implies next.free.contains(i as u32) by {
            assert(table.states[i] is None);
        }
    }
}

/// A stored value is found under the handle that was returned for it. That
/// handle is not the null handle and was not live before, and every other live
/// handle still names the value that it named.
pub proof fn law_stored_value_is_read_back<T>(table: Slots<T>, value: T)
    requires
        table.wf(),
        table.has_room(),
    ensures
        table.next_handle() != 0,
        !table.live(table.next_handle()),
        table.stored(value).wf(),
        table.stored(value).live(table.next_handle()),
        table.stored(value).value(table.next_handle()) == value,
        forall|other: i64| #[trigger]
            table.live(other) ==> table.stored(value).live(other) && table.stored(value).value(
                other,
            ) == table.value(other),
        forall|other: i64| #[trigger]
            table.stored(value).live(other) ==> other == table.next_handle() || table.live(other),
{
    lemma_stored(table, value);
    let next = table.stored(value);
    let handle = table.next_handle();
    if table.free.len() > 0 {
        let index = table.free.last();
        assert(table.free[table.free.len() - 1] == index);
        lemma_handle_round_trip(index, table.generations[index as int]);
        lemma_handle_nonzero(index, table.generations[index as int]);
        assert forall|other: i64| #[trigger] next.live(other) implies other == handle
            || table.live(other) by {
            lemma_handle_is_its_parts(other);
        }
    } else {
        let index = table.states.len() as u32;
        lemma_handle_round_trip(index, 1);
        lemma_handle_nonzero(index, 1);
        assert forall|other: i64| #[trigger] next.live(other) implies other == handle
            || table.live(other) by {
            lemma_handle_is_its_parts(other);
        }
    }
}

/// Two live handles that differ name different slots, so what is done
/// through one of them never reaches the value of the other.
pub proof fn law_live_handles_do_not_share_a_slot<T>(table: Slots<T>, a: i64, b: i64)
    requires
        table.wf(),
        table.live(a),
        table.live(b),
        a != b,
    ensures
        handle_index(a) != handle_index(b),
        forall|value: T| #[trigger]
            table.updated(a, value).live(b) && table.updated(a, value).value(b) == table.value(b),
        table.freed(a).live(b),
        table.freed(a).value(b) == table.value(b),
{
    lemma_handle_is_its_parts(a);
    lemma_handle_is_its_parts(b);
}

/// A replaced value is the one that is read next.
pub proof fn law_updated_value_is_read_back<T>(table: Slots<T>, handle: i64, value: T)
    requires
        table.wf(),
        table.live(handle),
    ensures
        table.updated(handle, value).wf(),
        table.updated(handle, value).live(handle),
        table.updated(handle, value).value(handle) == value,
{
    lemma_updated(table, handle, value);
}

/// A freed handle is refused as stale, and a second free with it.
pub proof fn law_freed_handle_is_stale<T>(table: Slots<T>, handle: i64)
    requires
        table.wf(),
        table.live(handle),
    ensures
        table.freed(handle).wf(),
        !table.freed(handle).live(handle),
        table.freed(handle).refusal(handle) == SlotError::StaleHandle,
        handle_generation(handle) < u32::MAX ==> table.freed(handle).spent(handle),
{
    lemma_freed(table, handle);
}

/// A spent handle stays spent through every operation, so it is never
/// mistaken for the handle of a value that took over its slot.
pub proof fn law_spent_handle_never_comes_back<T>(table: Slots<T>, handle: i64)
    requires
        table.wf(),
        table.spent(handle),
    ensures
        !table.live(handle),
        table.refusal(handle) == SlotError::StaleHandle,
        forall|value: T|
            table.has_room() ==> (#[trigger] table.stored(value)).spent(handle)
                && table.next_handle() != handle,
        forall|other: i64, value: T|
            table.live(other) ==> (#[trigger] table.updated(other, value)).spent(handle),
        forall|other: i64| table.live(other) ==> (#[trigger] table.freed(other)).spent(handle),
{
    if table.has_room() {
        if table.free.len() > 0 {
            let index = table.free.last();
            assert(table.free[table.free.len() - 1] == index);
            lemma_handle_round_trip(index, table.generations[index as int]);
        } else {
            lemma_handle_round_trip(table.states.len() as u32, 1);
        }
    }
}

/// The null handle is never live, whatever was stored.
pub proof fn law_null_handle_is_never_live<T>(table: Slots<T>)
    requires
        table.wf(),
    ensures
        !table.live(0),
{
    assert((((0i64 as u64) >> 32u64) as u32) == 0) by (bit_vector);
}

/// A slot that was freed is the first to be used again, under the next generation; where
/// none is free a value gets a slot behind all others, under the first generation.
pub proof fn law_freed_slot_is_used_first<T>(table: Slots<T>, handle: i64)
    requires
        table.wf(),
        table.live(handle),
    ensures
        table.freed(handle).has_room(),
        handle_index(table.freed(handle).next_handle()) == handle_index(handle),
        handle_generation(handle) < u32::MAX ==> handle_generation(
            table.freed(handle).next_handle(),
        ) == handle_generation(handle) + 1,
        handle_generation(handle) < u32::MAX ==> table.freed(handle).next_handle() != handle,
        table.freed(handle).states.len() == table.states.len(),
        table.free.len() == 0 && table.states.len() <= u32::MAX ==> table.has_room()
            && handle_index(table.next_handle()) == table.states.len() && handle_generation(
            table.next_handle(),
        ) == 1,
        table.free.len() == 0 && table.states.len() > u32::MAX ==> !table.has_room(),
{
    let after = table.freed(handle);
    let index = handle_index(handle);
    assert(after.free.last() == index);
    lemma_handle_round_trip(index, after.generations[index as int]);
    if table.states.len() <= u32::MAX {
        lemma_handle_round_trip(table.states.len() as u32, 1);
    }
}

/// A handle that never named a slot is out of range, and any other one that names no value
/// is stale.
pub proof fn law_refusal_tells_the_range<T>(table: Slots<T>, handle: i64)
    ensures
        table.refusal(handle) == SlotError::OutOfRange <==> handle_index(handle)
            >= table.states.len(),
        table.refusal(handle) == SlotError::StaleHandle <==> handle_index(handle)
            < table.states.len(),
        handle_index(handle) >= table.states.len() ==> !table.live(handle),
        !Slots::<T>::empty().live(handle),
{
}

} // verus!
