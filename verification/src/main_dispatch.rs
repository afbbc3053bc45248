//! Handing work to the main thread: one place in which a piece of work waits until
//! the main thread takes it, and the rule for where work runs.

use vstd::prelude::*;

verus! {

/// How many seconds work waits for the main thread before it runs where it was
/// handed in.
pub const MAIN_DISPATCH_DEADLINE_SECONDS: u64 = 10;

/// Where work runs: on the main thread, or inline on the thread that hands it in,
/// and why there.
#[derive(Debug, Clone, Copy, PartialEq, Eq, Structural)]
pub enum MainDispatchGate {
    Post,
    InlineOnMainThread,
    InlineNoMainLooper,
    InlineDrainRetired,
    InlineSlotBusy,
}

/// The place in which work waits for the main thread, which takes it while `open`.
pub struct MainDispatchSlot<J> {
    pub job: Option<J>,
    pub open: bool,
}

/// Where work runs. It is posted where it comes from another thread, the main
/// thread has its loop, that loop still takes work and no other work waits.
pub open spec fn gate(
    on_main_thread: bool,
    main_looper_prepared: bool,
    drain_open: bool,
    slot_free: bool,
) -> MainDispatchGate {
    if on_main_thread {
        MainDispatchGate::InlineOnMainThread
    } else if !main_looper_prepared {
        MainDispatchGate::InlineNoMainLooper
    } else if !drain_open {
        MainDispatchGate::InlineDrainRetired
    } else if !slot_free {
        MainDispatchGate::InlineSlotBusy
    } else {
        MainDispatchGate::Post
    }
}

/// Where work runs.
pub fn main_dispatch_gate(
    on_main_thread: bool,
    main_looper_prepared: bool,
    drain_open: bool,
    slot_free: bool,
) -> (g: MainDispatchGate)
    ensures
        g == gate(on_main_thread, main_looper_prepared, drain_open, slot_free),
{
    if on_main_thread {
        return MainDispatchGate::InlineOnMainThread;
    }
    if !main_looper_prepared {
        return MainDispatchGate::InlineNoMainLooper;
    }
    if !drain_open {
        return MainDispatchGate::InlineDrainRetired;
    }
    if !slot_free {
        return MainDispatchGate::InlineSlotBusy;
    }
    MainDispatchGate::Post
}

impl<J> MainDispatchSlot<J> {
    /// An empty place that the main thread looks into.
    pub fn new() -> (slot: Self)
        ensures
            slot.job is None,
            slot.open,
    {
        MainDispatchSlot { job: None, open: true }
    }
}

/// Hands work in. It either waits for the main thread, or comes back to run where it
/// was handed in; it is never lost.
pub fn offer_main_job<J>(
    slot: &mut MainDispatchSlot<J>,
    on_main_thread: bool,
    main_looper_prepared: bool,
    job: J,
) -> (result: (MainDispatchGate, Option<J>))
    ensures
        result.0 == gate(
            on_main_thread,
            main_looper_prepared,
            old(slot).open,
            old(slot).job is None,
        ),
        final(slot).open == old(slot).open,
        result.0 == MainDispatchGate::Post ==> result.1 is None && final(slot).job == Some(job),
        result.0 != MainDispatchGate::Post ==> result.1 == Some(job) && final(slot).job == old(
            slot,
        ).job,
{
    let slot_free = slot.job.is_none();
    let g = main_dispatch_gate(on_main_thread, main_looper_prepared, slot.open, slot_free);
    if g == MainDispatchGate::Post {
        slot.job = Some(job);
        (g, None)
    } else {
        (g, Some(job))
    }
}

/// Takes the work that waits. The main thread does so to run it, and who handed it
/// in does so once its deadline has passed.
pub fn take_main_job<J>(slot: &mut MainDispatchSlot<J>) -> (job: Option<J>)
    ensures
        job == old(slot).job,
        final(slot).job is None,
        final(slot).open == old(slot).open,
{
    let mut job: Option<J> = None;
    std::mem::swap(&mut job, &mut slot.job);
    job
}

/// Ends the handing over to the main thread and takes the work that still waits.
pub fn retire_main_upcall_dispatch<J>(slot: &mut MainDispatchSlot<J>) -> (job: Option<J>)
    ensures
        job == old(slot).job,
        final(slot).job is None,
        !final(slot).open,
{
    slot.open = false;
    take_main_job(slot)
}

/// Whether a warning is due that is given once.
pub fn first_time(noted: &mut bool) -> (first: bool)
    ensures
        first == !*old(noted),
        *final(noted),
{
    let first = !*noted;
    *noted = true;
    first
}

/// Whether work that runs inline is a warning's worth: it should have run on the
/// main thread.
pub fn is_degraded(g: MainDispatchGate) -> (b: bool)
    ensures
        b == (g != MainDispatchGate::InlineOnMainThread),
{
    g != MainDispatchGate::InlineOnMainThread
}

/// Whether a warning is due, once, that a callback was left from another thread than
/// the main one.
pub fn notes_registrar(main_known: bool, on_main_thread: bool, noted: &mut bool) -> (due: bool)
    ensures
        due == (main_known && !on_main_thread && !*old(noted)),
        *final(noted) == (*old(noted) || (main_known && !on_main_thread)),
{
    if main_known && !on_main_thread {
        first_time(noted)
    } else {
        false
    }
}

/// After the end of the handing over no work waits again: all of it runs where it is
/// handed in.
pub proof fn law_retired_slot_takes_nothing(on_main: bool, prepared: bool, free: bool)
    ensures
        gate(on_main, prepared, false, free) != MainDispatchGate::Post,
        !on_main && prepared ==> gate(on_main, prepared, false, free)
            == MainDispatchGate::InlineDrainRetired,
{
}

/// The main thread never waits for itself.
pub proof fn law_main_thread_runs_inline(prepared: bool, open: bool, free: bool)
    ensures
        gate(true, prepared, open, free) == MainDispatchGate::InlineOnMainThread,
{
}

/// Work never takes the place of other work.
pub proof fn law_waiting_work_stays(on_main: bool, prepared: bool, open: bool)
    ensures
        gate(on_main, prepared, open, false) != MainDispatchGate::Post,
        !on_main && prepared && open ==> gate(on_main, prepared, open, false)
            == MainDispatchGate::InlineSlotBusy,
{
}

/// Work is handed to the main thread exactly where it comes from another one, the main
/// thread has its looper, takes work in, and has none waiting; without a looper it runs
/// where it is.
pub proof fn law_work_waits_only_for_the_main_thread(
    on_main: bool,
    prepared: bool,
    open: bool,
    free: bool,
)
    ensures
        gate(on_main, prepared, open, free) == MainDispatchGate::Post <==> !on_main && prepared
            && open && free,
        !on_main && !prepared ==> gate(on_main, prepared, open, free)
            == MainDispatchGate::InlineNoMainLooper,
{
}

} // verus!
