//! Native message queues: who may block on which queue, and what ends a wait.
//!
//! A queue never blocks by itself. A poll that has to wait is answered with
//! `Poll::Wait`; the caller waits for a wake or for the time to pass and then asks
//! again with `resume_poll`.

use std::collections::HashMap;
use vstd::prelude::*;

verus! {

broadcast use vstd::std_specs::hash::group_hash_axioms;

/// The handle of the first queue. Handles only go up from there.
pub const FIRST_HANDLE: i64 = 0x4d51_0000;

/// One queue.
#[derive(Debug, Clone, Copy, PartialEq, Eq, Structural)]
pub struct QueueState {
    /// Whether the queue belongs to the main thread, which yields in place of
    /// waiting.
    pub is_main: bool,
    /// Whether a wake has come that no poll has taken yet.
    pub wake_pending: bool,
    /// Whether a poll is waiting.
    pub waiting: bool,
}

impl QueueState {
    /// A queue that nothing has happened to.
    pub fn new(is_main: bool) -> (state: Self)
        ensures
            state == (QueueState { is_main, wake_pending: false, waiting: false }),
    {
        QueueState { is_main, wake_pending: false, waiting: false }
    }

    /// The queue after a wake.
    pub open spec fn signalled(self) -> Self {
        QueueState { wake_pending: true, ..self }
    }

    /// The queue after a poll took the pending wake, if there is one, and no
    /// longer waits.
    pub open spec fn settled(self) -> Self {
        QueueState { is_main: self.is_main, wake_pending: false, waiting: false }
    }
}

/// How a poll goes on.
#[derive(Debug, Clone, Copy, PartialEq, Eq, Structural)]
pub enum Poll {
    /// The poll is over; `true` tells the caller to yield to the host's loop.
    Done(bool),
    /// The poll waits, for so many milliseconds or without an end.
    Wait(Option<u32>),
}

/// Every queue that exists.
pub struct QueueRegistry {
    next_handle: i64,
    queues: HashMap<i64, QueueState>,
}

/// What a `QueueRegistry` holds.
#[verifier::ext_equal]
pub struct Queues {
    pub next_handle: i64,
    pub queues: Map<i64, QueueState>,
}

impl Queues {
    /// Every handle that was given out lies below the next one.
    pub open spec fn wf(self) -> bool {
        &&& FIRST_HANDLE <= self.next_handle
        &&& self.queues.dom().finite()
        &&& forall|h: i64| #[trigger]
            self.queues.contains_key(h) ==> FIRST_HANDLE <= h < self.next_handle
    }

    /// The registry with another state for one queue.
    pub open spec fn with_queue(self, handle: i64, state: QueueState) -> Self {
        Queues { next_handle: self.next_handle, queues: self.queues.insert(handle, state) }
    }

    /// How a poll of `handle` starts. An unknown queue and that of the main
    /// thread yield unless the poll asks for no time; any other queue waits
    /// unless the poll asks for no time or a wake is pending.
    pub open spec fn poll(self, handle: i64, timeout_millis: i32) -> Poll {
        if !self.queues.contains_key(handle) || self.queues[handle].is_main {
            Poll::Done(timeout_millis != 0)
        } else if timeout_millis == 0 || self.queues[handle].wake_pending {
            Poll::Done(false)
        } else if timeout_millis < 0 {
            Poll::Wait(None)
        } else {
            Poll::Wait(Some(timeout_millis as u32))
        }
    }

    /// The registry after a poll started.
    pub open spec fn polled(self, handle: i64, timeout_millis: i32) -> Self {
        if !self.queues.contains_key(handle) || self.queues[handle].is_main || timeout_millis
            == 0 {
            self
        } else if self.queues[handle].wake_pending {
            self.with_queue(handle, QueueState { wake_pending: false, ..self.queues[handle] })
        } else {
            self.with_queue(handle, QueueState { waiting: true, ..self.queues[handle] })
        }
    }

    /// The registry after a queue was made under the next handle.
    pub open spec fn created(self, is_main: bool) -> Self {
        Queues {
            next_handle: (self.next_handle + 1) as i64,
            queues: self.queues.insert(
                self.next_handle,
                QueueState { is_main, wake_pending: false, waiting: false },
            ),
        }
    }

    /// The registry after a poll that waits went on.
    pub open spec fn resumed(self, handle: i64, timed_out: bool) -> Self {
        if self.queues.contains_key(handle) && self.wait_over(handle, timed_out) {
            self.with_queue(handle, self.queues[handle].settled())
        } else {
            self
        }
    }

    /// The registry after a wake.
    pub open spec fn woken(self, handle: i64) -> Self {
        if self.queues.contains_key(handle) {
            self.with_queue(handle, self.queues[handle].signalled())
        } else {
            self
        }
    }

    /// The registry without a queue.
    pub open spec fn destroyed(self, handle: i64) -> Self {
        Queues { next_handle: self.next_handle, queues: self.queues.remove(handle) }
    }

    /// Whether a handle was given out, for a queue that exists or did.
    pub open spec fn issued(self, handle: i64) -> bool {
        FIRST_HANDLE <= handle < self.next_handle
    }

    /// Whether a wait on `handle` is over, given whether its time has passed.
    pub open spec fn wait_over(self, handle: i64, timed_out: bool) -> bool {
        !self.queues.contains_key(handle) || self.queues[handle].wake_pending || timed_out
    }
}

impl View for QueueRegistry {
    type V = Queues;

    closed spec fn view(&self) -> Queues {
        Queues { next_handle: self.next_handle, queues: self.queues@ }
    }
}

impl QueueRegistry {
    /// A registry without queues.
    pub fn new() -> (registry: Self)
        ensures
            registry@.wf(),
            registry@ == (Queues {
                next_handle: FIRST_HANDLE,
                queues: Map::<i64, QueueState>::empty(),
            }),
    {
        QueueRegistry { next_handle: FIRST_HANDLE, queues: HashMap::new() }
    }

    /// The state of a queue.
    pub fn state(&self, handle: i64) -> (state: Option<QueueState>)
        ensures
            state == (if self@.queues.contains_key(handle) {
                Some(self@.queues[handle])
            } else {
                None
            }),
    {
        match self.queues.get(&handle) {
            Some(state) => Some(*state),
            None => None,
        }
    }

    fn put(&mut self, handle: i64, state: QueueState)
        requires
            old(self)@.queues.contains_key(handle),
            old(self)@.wf(),
        ensures
            final(self)@ == old(self)@.with_queue(handle, state),
            final(self)@.wf(),
    {
        self.queues.insert(handle, state);
    }
}

/// Makes a queue and returns its handle, or nothing once the handles have run
/// out.
pub fn create(registry: &mut QueueRegistry, is_main: bool) -> (handle: Option<i64>)
    requires
        old(registry)@.wf(),
    ensures
        final(registry)@.wf(),
        old(registry)@.next_handle == i64::MAX ==> handle is None && final(registry)@
            == old(registry)@,
        old(registry)@.next_handle < i64::MAX ==> {
            &&& handle == Some(old(registry)@.next_handle)
            &&& !old(registry)@.queues.contains_key(handle->0)
            &&& final(registry)@ == old(registry)@.created(is_main)
        },
{
    let handle: i64 = registry.next_handle;
    match handle.checked_add(1) {
        None => None,
        Some(next) => {
            registry.next_handle = next;
            registry.queues.insert(handle, QueueState::new(is_main));
            Some(handle)
        },
    }
}

/// Starts a poll of a queue. See `Queues::poll`.
pub fn poll_should_yield(registry: &mut QueueRegistry, handle: i64, timeout_millis: i32) -> (poll:
    Poll)
    requires
        old(registry)@.wf(),
    ensures
        final(registry)@.wf(),
        poll == old(registry)@.poll(handle, timeout_millis),
        final(registry)@ == old(registry)@.polled(handle, timeout_millis),
{
    let state: QueueState = match registry.state(handle) {
        Some(state) => state,
        None => {
            return Poll::Done(timeout_millis != 0);
        },
    };
    if state.is_main {
        return Poll::Done(timeout_millis != 0);
    }
    if timeout_millis == 0 {
        return Poll::Done(false);
    }
    if state.wake_pending {
        registry.put(
            handle,
            QueueState { is_main: state.is_main, wake_pending: false, waiting: state.waiting },
        );
        return Poll::Done(false);
    }
    registry.put(
        handle,
        QueueState { is_main: state.is_main, wake_pending: state.wake_pending, waiting: true },
    );
    if timeout_millis < 0 {
        Poll::Wait(None)
    } else {
        Poll::Wait(Some(timeout_millis as u32))
    }
}

/// Goes on with a poll that waits, after a wake of any queue or after its time
/// has passed. The poll is over where the queue is gone, was woken or the time is
/// up; a pending wake is taken.
pub fn resume_poll(registry: &mut QueueRegistry, handle: i64, timed_out: bool) -> (poll: Option<
    bool,
>)
    requires
        old(registry)@.wf(),
    ensures
        final(registry)@.wf(),
        old(registry)@.wait_over(handle, timed_out) ==> poll == Some(false),
        !old(registry)@.wait_over(handle, timed_out) ==> poll is None,
        final(registry)@ == old(registry)@.resumed(handle, timed_out),
{
    let state: QueueState = match registry.state(handle) {
        Some(state) => state,
        None => {
            return Some(false);
        },
    };
    if !state.wake_pending && !timed_out {
        return None;
    }
    registry.put(
        handle,
        QueueState { is_main: state.is_main, wake_pending: false, waiting: false },
    );
    Some(false)
}

/// Wakes a queue. The wake stays pending until a poll takes it.
pub fn wake(registry: &mut QueueRegistry, handle: i64) -> (known: bool)
    requires
        old(registry)@.wf(),
    ensures
        final(registry)@.wf(),
        known == old(registry)@.queues.contains_key(handle),
        final(registry)@ == old(registry)@.woken(handle),
        final(registry)@.queues.dom() == old(registry)@.queues.dom(),
        known ==> final(registry)@.queues[handle] == (QueueState {
            wake_pending: true,
            ..old(registry)@.queues[handle]
        }),
{
    match registry.state(handle) {
        Some(state) => {
            registry.put(
                handle,
                QueueState { is_main: state.is_main, wake_pending: true, waiting: state.waiting },
            );
            true
        },
        None => false,
    }
}

/// Whether a poll is waiting on a queue.
pub fn is_idling(registry: &QueueRegistry, handle: i64) -> (b: bool)
    ensures
        b == (registry@.queues.contains_key(handle) && registry@.queues[handle].waiting),
{
    match registry.state(handle) {
        Some(state) => state.waiting,
        None => false,
    }
}

/// Takes a queue away. A poll that waits on it is over.
pub fn destroy(registry: &mut QueueRegistry, handle: i64) -> (known: bool)
    requires
        old(registry)@.wf(),
    ensures
        final(registry)@.wf(),
        known == old(registry)@.queues.contains_key(handle),
        final(registry)@ == old(registry)@.destroyed(handle),
        final(registry)@.queues == old(registry)@.queues.remove(handle),
{
    let removed = registry.queues.remove(&handle);
    proof {
        if !old(registry)@.queues.contains_key(handle) {
            assert(registry@.queues =~= old(registry)@.queues.remove(handle));
        }
    }
    removed.is_some()
}

/// Whether a poll of the main queue yields: it does unless there is a message to
/// pull at once.
pub fn main_looper_poll_should_yield(timeout_millis: i32) -> (b: bool)
    ensures
        b == (timeout_millis != 0),
{
    timeout_millis != 0
}

/// A wake is not lost. A poll that comes after it does not wait, and takes
/// it, so that the poll after that one waits.
pub proof fn law_wake_is_durable(registry: Queues, handle: i64, timeout_millis: i32, later: i32)
    requires
        registry.wf(),
        registry.queues.contains_key(handle),
        !registry.queues[handle].is_main,
        timeout_millis != 0,
        later != 0,
    ensures
        ({
            let woken = registry.woken(handle);
            let after = woken.polled(handle, timeout_millis);
            &&& woken.poll(handle, timeout_millis) == Poll::Done(false)
            &&& after.poll(handle, later) is Wait
        }),
{
}

/// A poll that waits ends once its queue is woken or taken away.
pub proof fn law_wait_ends_on_wake_and_on_destroy(registry: Queues, handle: i64)
    requires
        registry.queues.contains_key(handle),
    ensures
        registry.woken(handle).wait_over(handle, false),
        registry.destroyed(handle).wait_over(handle, false),
{
}

/// No handle is given out twice. A handle that was given out stays so through every
/// operation, also once its queue is gone, and a new queue never gets such a handle.
pub proof fn law_handle_is_given_out_once(
    registry: Queues,
    issued: i64,
    handle: i64,
    timeout_millis: i32,
    timed_out: bool,
    is_main: bool,
)
    requires
        registry.wf(),
    ensures
        registry.queues.contains_key(handle) ==> registry.issued(handle),
        registry.issued(issued) ==> {
            &&& issued != registry.next_handle
            &&& registry.polled(handle, timeout_millis).issued(issued)
            &&& registry.resumed(handle, timed_out).issued(issued)
            &&& registry.woken(handle).issued(issued)
            &&& registry.destroyed(handle).issued(issued)
            &&& registry.next_handle < i64::MAX ==> registry.created(is_main).issued(issued)
        },
        !registry.issued(registry.next_handle),
        registry.next_handle < i64::MAX ==> registry.created(is_main).issued(registry.next_handle),
        registry.polled(handle, timeout_millis).next_handle == registry.next_handle,
        registry.resumed(handle, timed_out).next_handle == registry.next_handle,
        registry.woken(handle).next_handle == registry.next_handle,
        registry.destroyed(handle).next_handle == registry.next_handle,
        registry.next_handle < i64::MAX ==> registry.created(is_main).next_handle
            == registry.next_handle + 1,
{
}

/// Neither the main queue nor a queue that does not exist ever waits.
pub proof fn law_main_and_unknown_queues_never_wait(
    registry: Queues,
    handle: i64,
    timeout_millis: i32,
)
    requires
        !registry.queues.contains_key(handle) || registry.queues[handle].is_main,
    ensures
        registry.poll(handle, timeout_millis) == Poll::Done(timeout_millis != 0),
        registry.polled(handle, timeout_millis) == registry,
{
}

/// What is done to one queue leaves every other queue as it is.
pub proof fn law_other_queues_are_left_alone(
    registry: Queues,
    handle: i64,
    timeout_millis: i32,
    timed_out: bool,
    is_main: bool,
    other: i64,
)
    requires
        other != handle,
    ensures
        registry.polled(handle, timeout_millis).queues.contains_key(other)
            == registry.queues.contains_key(other),
        registry.resumed(handle, timed_out).queues.contains_key(other)
            == registry.queues.contains_key(other),
        registry.woken(handle).queues.contains_key(other) == registry.queues.contains_key(other),
        registry.destroyed(handle).queues.contains_key(other) == registry.queues.contains_key(
            other,
        ),
        registry.queues.contains_key(other) ==> {
            &&& registry.polled(handle, timeout_millis).queues[other] == registry.queues[other]
            &&& registry.resumed(handle, timed_out).queues[other] == registry.queues[other]
            &&& registry.woken(handle).queues[other] == registry.queues[other]
            &&& registry.destroyed(handle).queues[other] == registry.queues[other]
        },
        registry.queues.contains_key(other) && other != registry.next_handle ==> registry.created(
            is_main,
        ).queues.contains_key(other) && registry.created(is_main).queues[other]
            == registry.queues[other],
{
}

/// A poll of a queue that is not the main one waits as long as it asks for: without an
/// end for a negative time, not at all for none, and not at all where a wake is pending,
/// which it then takes. While it waits the queue is marked so.
pub proof fn law_poll_waits_as_long_as_it_asks(
    registry: Queues,
    handle: i64,
    timeout_millis: i32,
)
    requires
        registry.queues.contains_key(handle),
        !registry.queues[handle].is_main,
    ensures
        timeout_millis == 0 ==> registry.poll(handle, timeout_millis) == Poll::Done(false)
            && registry.polled(handle, timeout_millis) == registry,
        timeout_millis != 0 && registry.queues[handle].wake_pending ==> {
            let after = registry.polled(handle, timeout_millis).queues;
            &&& registry.poll(handle, timeout_millis) == Poll::Done(false)
            &&& after.contains_key(handle) && !after[handle].is_main
            &&& !after[handle].wake_pending
            &&& after[handle].waiting == registry.queues[handle].waiting
        },
        timeout_millis < 0 && !registry.queues[handle].wake_pending ==> registry.poll(
            handle,
            timeout_millis,
        ) == Poll::Wait(None),
        timeout_millis > 0 && !registry.queues[handle].wake_pending ==> {
            let poll = registry.poll(handle, timeout_millis);
            &&& poll is Wait
            &&& poll->Wait_0 is Some
            &&& poll->Wait_0->0 == timeout_millis
        },
        timeout_millis != 0 && !registry.queues[handle].wake_pending ==> {
            let after = registry.polled(handle, timeout_millis).queues;
            &&& after.contains_key(handle) && !after[handle].is_main
            &&& !after[handle].wake_pending
            &&& after[handle].waiting
        },
{
}

/// A wait is over once its queue was woken, its time has passed or the queue is gone,
/// and not before. A queue whose wait is over waits no longer and has no wake pending;
/// one whose wait goes on stays as it is.
pub proof fn law_wait_goes_on_until_it_ends(registry: Queues, handle: i64, timed_out: bool)
    ensures
        !registry.queues.contains_key(handle) ==> registry.wait_over(handle, timed_out)
            && registry.resumed(handle, timed_out) == registry,
        registry.queues.contains_key(handle) ==> (registry.wait_over(handle, timed_out)
            <==> timed_out || registry.queues[handle].wake_pending),
        registry.queues.contains_key(handle) && !timed_out
            && !registry.queues[handle].wake_pending ==> registry.resumed(handle, timed_out)
            == registry,
        registry.queues.contains_key(handle) && (timed_out
            || registry.queues[handle].wake_pending) ==> {
            let after = registry.resumed(handle, timed_out).queues;
            &&& after.contains_key(handle)
            &&& after[handle].is_main == registry.queues[handle].is_main
            &&& !after[handle].wake_pending
            &&& !after[handle].waiting
        },
{
}

/// A new queue belongs to the thread it was made for, and nothing has happened to it. A
/// queue that was woken has a wake pending and is otherwise as it was; one that was taken
/// away is gone. Neither makes a queue out of an unknown handle.
pub proof fn law_queue_is_as_it_was_left(registry: Queues, handle: i64, is_main: bool)
    ensures
        registry.created(is_main).queues.contains_key(registry.next_handle),
        registry.created(is_main).queues[registry.next_handle].is_main == is_main,
        !registry.created(is_main).queues[registry.next_handle].wake_pending,
        !registry.created(is_main).queues[registry.next_handle].waiting,
        registry.queues.contains_key(handle) ==> {
            let after = registry.woken(handle).queues;
            &&& after.contains_key(handle)
            &&& after[handle].wake_pending
            &&& after[handle].is_main == registry.queues[handle].is_main
            &&& after[handle].waiting == registry.queues[handle].waiting
        },
        !registry.queues.contains_key(handle) ==> registry.woken(handle) == registry,
        !registry.destroyed(handle).queues.contains_key(handle),
{
}

} // verus!
