//! The activities that an app has started, in the order in which it started them.

use vstd::prelude::*;

verus! {

/// An activity, and whether it was brought down.
pub struct TrackedActivity<A> {
    pub object: A,
    pub finished: bool,
}

/// Notes an activity.
pub fn track_activity<A>(tracker: &mut Vec<TrackedActivity<A>>, object: A, finished: bool)
    ensures
        final(tracker)@ == old(tracker)@.push((TrackedActivity { object, finished })),
{
    tracker.push(TrackedActivity { object, finished });
}

/// What is known of an activity that finishes.
#[derive(Debug, Clone, Copy, PartialEq, Eq, Structural)]
pub enum FinishMark {
    /// It had not been brought down, and is to be now.
    First,
    /// It was brought down before.
    Again,
    /// It was never noted: it is to be noted as finished, and brought down.
    Untracked,
}

/// Marks an activity as finished. `matching` is its place, where it was noted.
pub fn mark_activity_finished_once<A>(
    tracker: &mut Vec<TrackedActivity<A>>,
    matching: Option<usize>,
) -> (mark: FinishMark)
    requires
        match matching {
            Some(i) => i < old(tracker)@.len(),
            None => true,
        },
    ensures
        match matching {
            None => mark == FinishMark::Untracked && final(tracker)@ == old(tracker)@,
            Some(i) => {
                &&& mark == (if old(tracker)@[i as int].finished {
                    FinishMark::Again
                } else {
                    FinishMark::First
                })
                &&& final(tracker)@ == old(tracker)@.update(
                    i as int,
                    (TrackedActivity { object: old(tracker)@[i as int].object, finished: true }),
                )
            },
        },
{
    let ghost before = tracker@;
    match matching {
        None => FinishMark::Untracked,
        Some(i) => {
            if tracker[i].finished {
                assert(tracker@ =~= before.update(
                    i as int,
                    TrackedActivity { object: before[i as int].object, finished: true },
                ));
                return FinishMark::Again;
            }
            tracker[i].finished = true;
            FinishMark::First
        },
    }
}

/// Whether an activity that finishes is brought down.
pub fn is_brought_down(mark: FinishMark) -> (b: bool)
    ensures
        b == (mark != FinishMark::Again),
{
    mark != FinishMark::Again
}

/// Why an activity that finishes is left alone.
#[derive(Debug, Clone, Copy, PartialEq, Eq, Structural)]
pub enum FinishRefusal {
    /// Its window is not live.
    StaleWindow,
    /// There is no activity.
    NullReceiver,
}

/// Whether an activity may finish: its window is live, and there is one.
pub fn check_finish(window_live: bool, receiver_is_null: bool) -> (result: Result<
    (),
    FinishRefusal,
>)
    ensures
        match result {
            Ok(()) => window_live && !receiver_is_null,
            Err(FinishRefusal::StaleWindow) => !window_live,
            Err(FinishRefusal::NullReceiver) => window_live && receiver_is_null,
        },
{
    if !window_live {
        return Err(FinishRefusal::StaleWindow);
    }
    if receiver_is_null {
        return Err(FinishRefusal::NullReceiver);
    }
    Ok(())
}

/// The first activity, from a place on, that is alive.
pub open spec fn first_live<A>(tracker: Seq<TrackedActivity<A>>, from: int) -> Option<int>
    decreases tracker.len() - from,
{
    if from >= tracker.len() {
        None
    } else if !tracker[from].finished {
        Some(from)
    } else {
        first_live(tracker, from + 1)
    }
}

/// The latest activity that is alive.
pub open spec fn last_live<A>(tracker: Seq<TrackedActivity<A>>) -> Option<int>
    decreases tracker.len(),
{
    if tracker.len() == 0 {
        None
    } else if !tracker.last().finished {
        Some(tracker.len() - 1)
    } else {
        last_live(tracker.drop_last())
    }
}

/// The first activity, from a place on, that is alive. The first of all is the root
/// of the task.
pub fn next_live_activity<A>(tracker: &Vec<TrackedActivity<A>>, from: usize) -> (at: Option<usize>)
    ensures
        match at {
            Some(i) => first_live(tracker@, from as int) == Some(i as int) && from <= i
                < tracker@.len() && !tracker@[i as int].finished,
            None => first_live(tracker@, from as int) is None,
        },
        forall|j: int|
            from <= j < tracker@.len() && (at matches Some(i) ==> j < i) ==> (
            #[trigger] tracker@[j]).finished,
{
    let mut i: usize = from;
    while i < tracker.len()
        invariant
            from <= i,
            forall|j: int| from <= j < i && j < tracker@.len() ==> (#[trigger] tracker@[j]).finished,
            first_live(tracker@, from as int) == first_live(tracker@, i as int),
        decreases tracker@.len() - i,
    {
        if !tracker[i].finished {
            return Some(i);
        }
        i += 1;
    }
    None
}

/// The latest activity that is alive: the one that hears of Back.
pub fn latest_live_activity<A>(tracker: &Vec<TrackedActivity<A>>) -> (at: Option<usize>)
    ensures
        match at {
            Some(i) => last_live(tracker@) == Some(i as int) && i < tracker@.len()
                && !tracker@[i as int].finished,
            None => last_live(tracker@) is None,
        },
        forall|j: int|
            0 <= j < tracker@.len() && (at matches Some(i) ==> i < j) ==> (
            #[trigger] tracker@[j]).finished,
{
    let mut i: usize = tracker.len();
    assert(tracker@.take(i as int) =~= tracker@);
    while i > 0
        invariant
            i <= tracker@.len(),
            last_live(tracker@) == last_live(tracker@.take(i as int)),
            forall|j: int| i <= j < tracker@.len() ==> (#[trigger] tracker@[j]).finished,
        decreases i,
    {
        assert(tracker@.take(i as int).last() == tracker@[i - 1]);
        assert(tracker@.take(i as int).drop_last() =~= tracker@.take(i - 1));
        if !tracker[i - 1].finished {
            return Some(i - 1);
        }
        i -= 1;
    }
    None
}

/// Whether an activity is the root of its task. `same_as_first` says whether it is
/// the first activity that is alive; there is no answer where that cannot be told.
pub fn is_task_root(has_live: bool, same_as_first: Option<bool>) -> (b: bool)
    ensures
        b == (has_live && same_as_first == Some(true)),
{
    if !has_live {
        return false;
    }
    match same_as_first {
        Some(b) => b,
        None => false,
    }
}

/// The places of the activities that are alive, the latest first.
pub open spec fn live_latest_first<A>(tracker: Seq<TrackedActivity<A>>) -> Seq<usize>
    decreases tracker.len(),
{
    if tracker.len() == 0 {
        Seq::empty()
    } else {
        let rest = live_latest_first(tracker.drop_last());
        if tracker.last().finished {
            rest
        } else {
            seq![(tracker.len() - 1) as usize] + rest
        }
    }
}

/// The places of the activities that are alive, the latest first: those that are
/// brought down with the app.
pub fn live_activities_for_shutdown<A>(tracker: &Vec<TrackedActivity<A>>) -> (places: Vec<usize>)
    ensures
        places@ == live_latest_first(tracker@),
{
    let mut places: Vec<usize> = Vec::new();
    let mut i: usize = tracker.len();
    assert(tracker@.take(i as int) =~= tracker@);
    while i > 0
        invariant
            i <= tracker@.len(),
            places@ + live_latest_first(tracker@.take(i as int)) =~= live_latest_first(tracker@),
        decreases i,
    {
        let ghost front = tracker@.take(i as int);
        assert(front.last() == tracker@[i - 1]);
        assert(front.drop_last() =~= tracker@.take(i - 1));
        let ghost before = places@;
        if !tracker[i - 1].finished {
            places.push(i - 1);
            assert(before + (seq![(i - 1) as usize] + live_latest_first(front.drop_last()))
                =~= places@ + live_latest_first(front.drop_last()));
        }
        i -= 1;
    }
    assert(tracker@.take(0).len() == 0);
    assert(live_latest_first(tracker@.take(0)) =~= Seq::empty());
    places
}

/// An activity is brought down once: whatever is marked as finished is found
/// finished when it finishes again, and never found alive.
pub proof fn law_finished_stays_finished<A>(tracker: Seq<TrackedActivity<A>>, at: int)
    requires
        0 <= at < tracker.len(),
    ensures
        ({
            let after = tracker.update(
                at,
                TrackedActivity { object: tracker[at].object, finished: true },
            );
            &&& after[at].finished
            &&& first_live(after, 0) != Some(at)
            &&& last_live(after) != Some(at)
        }),
{
    let after = tracker.update(at, TrackedActivity { object: tracker[at].object, finished: true });
    lemma_first_live(after, 0);
    lemma_last_live(after);
}

/// An activity that was just started hears of Back.
pub proof fn law_latest_activity_hears_of_back<A>(tracker: Seq<TrackedActivity<A>>, object: A)
    ensures
        last_live(tracker.push(TrackedActivity { object, finished: false })) == Some(
            tracker.len() as int,
        ),
{
}

/// The activities that are brought down with an app are those that are alive, each
/// once, and those started later come first.
pub proof fn law_shutdown_takes_the_living<A>(tracker: Seq<TrackedActivity<A>>)
    requires
        tracker.len() <= usize::MAX,
    ensures
        forall|k: int|
            0 <= k < live_latest_first(tracker).len() ==> {
                let at = #[trigger] live_latest_first(tracker)[k];
                at < tracker.len() && !tracker[at as int].finished
            },
        forall|j: int, k: int|
            0 <= j < k < live_latest_first(tracker).len() ==> #[trigger] live_latest_first(
                tracker,
            )[j] > #[trigger] live_latest_first(tracker)[k],
        forall|i: int|
            0 <= i < tracker.len() && !(#[trigger] tracker[i]).finished ==> live_latest_first(
                tracker,
            ).contains(i as usize),
    decreases tracker.len(),
{
    if tracker.len() > 0 {
        let front = tracker.drop_last();
        let rest = live_latest_first(front);
        let all = live_latest_first(tracker);
        law_shutdown_takes_the_living(front);
        let shift: int = if tracker.last().finished {
            0
        } else {
            1
        };
        assert forall|k: int| 0 <= k < all.len() implies (#[trigger] all[k]) < tracker.len()
            && !tracker[all[k] as int].finished by {
            if k >= shift {
                assert(all[k] == rest[k - shift]);
                assert(front[all[k] as int] == tracker[all[k] as int]);
            }
        }
        assert forall|j: int, k: int| 0 <= j < k < all.len() implies #[trigger] all[j]
            > #[trigger] all[k] by {
            assert(all[k] == rest[k - shift]);
            if j >= shift {
                assert(all[j] == rest[j - shift]);
            }
        }
        assert forall|i: int| 0 <= i < tracker.len() && !(#[trigger] tracker[i]).finished implies
            all.contains(i as usize) by {
            if i < front.len() {
                assert(front[i] == tracker[i]);
                assert(rest.contains(i as usize));
                let k = choose|k: int| 0 <= k < rest.len() && rest[k] == i as usize;
                assert(all[k + shift] == i as usize);
            } else {
                assert(all[0] == i as usize);
            }
        }
    }
}

/// The activity that is found alive is the nearest one: none before it, or none behind it,
/// is alive, and where none is found none is alive.
pub proof fn law_nearest_living_activity_is_found<A>(
    tracker: Seq<TrackedActivity<A>>,
    from: int,
    at: int,
)
    requires
        0 <= from,
    ensures
        first_live(tracker, from) == Some(at) <==> from <= at < tracker.len()
            && !tracker[at].finished && forall|j: int|
            from <= j < at ==> (#[trigger] tracker[j]).finished,
        last_live(tracker) == Some(at) <==> 0 <= at < tracker.len() && !tracker[at].finished
            && forall|j: int| at < j < tracker.len() ==> (#[trigger] tracker[j]).finished,
{
    lemma_first_live(tracker, from);
    lemma_last_live(tracker);
    if from <= at < tracker.len() && !tracker[at].finished && forall|j: int|
        from <= j < at ==> (#[trigger] tracker[j]).finished {
        assert(first_live(tracker, from) == Some(at)) by {
            match first_live(tracker, from) {
                Some(i) => {
                    if i < at {
                        assert(tracker[i].finished);
                    } else if at < i {
                        assert(tracker[at].finished);
                    }
                },
                None => {
                    assert(tracker[at].finished);
                },
            }
        }
    }
    if 0 <= at < tracker.len() && !tracker[at].finished && forall|j: int|
        at < j < tracker.len() ==> (#[trigger] tracker[j]).finished {
        assert(last_live(tracker) == Some(at)) by {
            match last_live(tracker) {
                Some(i) => {
                    if at < i {
                        assert(tracker[i].finished);
                    } else if i < at {
                        assert(tracker[at].finished);
                    }
                },
                None => {
                    assert(tracker[at].finished);
                },
            }
        }
    }
}

proof fn lemma_first_live<A>(tracker: Seq<TrackedActivity<A>>, from: int)
    requires
        0 <= from,
    ensures
        match first_live(tracker, from) {
            Some(i) => from <= i < tracker.len() && !tracker[i].finished && forall|j: int|
                from <= j < i ==> (#[trigger] tracker[j]).finished,
            None => forall|j: int| from <= j < tracker.len() ==> (#[trigger] tracker[j]).finished,
        },
    decreases tracker.len() - from,
{
    if from < tracker.len() && tracker[from].finished {
        lemma_first_live(tracker, from + 1);
    }
}

proof fn lemma_last_live<A>(tracker: Seq<TrackedActivity<A>>)
    ensures
        match last_live(tracker) {
            Some(i) => 0 <= i < tracker.len() && !tracker[i].finished && forall|j: int|
                i < j < tracker.len() ==> (#[trigger] tracker[j]).finished,
            None => forall|j: int| 0 <= j < tracker.len() ==> (#[trigger] tracker[j]).finished,
        },
    decreases tracker.len(),
{
    if tracker.len() > 0 && tracker.last().finished {
        let front = tracker.drop_last();
        lemma_last_live(front);
        assert forall|j: int|
            0 <= j < tracker.len() && (last_live(tracker) matches Some(i) ==> i < j) implies (
        #[trigger] tracker[j]).finished by {
            if j < front.len() {
                assert(front[j] == tracker[j]);
            }
        }
    }
}

} // verus!
