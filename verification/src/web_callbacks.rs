//! The callbacks that an app left with the web view: each waits for its result
//! under the number of its request, and gets exactly one answer.

use std::collections::HashMap;
use vstd::prelude::*;

verus! {

broadcast use vstd::std_specs::hash::group_hash_axioms;

/// The callbacks that wait: for the result of a script, with the web view it runs
/// in and the era in which it was handed in; for a cookie to be set; for cookies to
/// be cleared.
pub struct WebCallbacks<V> {
    pub evals: HashMap<u32, (i64, u64, V)>,
    pub cookie_sets: HashMap<u32, V>,
    pub cookie_clears: HashMap<u32, V>,
}

/// Whether a callback goes with a web view that closed: it waits for a script of
/// that view, handed in no later than the era.
pub open spec fn is_victim<V>(entry: (i64, u64, V), widget: i64, upto_era: u64) -> bool {
    entry.0 == widget && entry.1 <= upto_era
}

/// Whether a list holds the keys of a map, each once, that `wanted` picks.
pub open spec fn lists_keys<V>(ids: Seq<u32>, m: Map<u32, V>, wanted: spec_fn(V) -> bool) -> bool {
    &&& ids.no_duplicates()
    &&& forall|id: u32| #[trigger]
        ids.contains(id) <==> m.contains_key(id) && wanted(m[id])
}

/// The requests whose callbacks go with a web view that closed, in no certain
/// order.
pub fn eval_drain_victims<V>(
    m: &HashMap<u32, (i64, u64, V)>,
    widget: i64,
    upto_era: u64,
) -> (ids: Vec<u32>)
    ensures
        lists_keys(ids@, m@, |entry: (i64, u64, V)| is_victim(entry, widget, upto_era)),
        ids@.no_duplicates(),
        forall|id: u32| #[trigger]
            ids@.contains(id) <==> m@.contains_key(id) && m@[id].0 == widget && m@[id].1
                <= upto_era,
{
    let mut ids: Vec<u32> = Vec::new();
    let ghost all = vstd::std_specs::iter::IteratorSpec::remaining(&m.keys());
    for id in it: m.keys()
        invariant
            it.seq() == all,
            all.no_duplicates(),
            all.unref().to_set() == m@.dom(),
            ids@.no_duplicates(),
            forall|i: int| 0 <= i < ids@.len() ==> all.take(it.index()).contains(&#[trigger] ids@[i]),
            forall|i: int|
                0 <= i < it.index() ==> (ids@.contains(*#[trigger] all[i]) <==> is_victim(
                    m@[*all[i]],
                    widget,
                    upto_era,
                )),
    {
        let ghost at = it.index();
        let ghost before = ids@;
        proof {
            assert(all.unref()[at] == *all[at]);
            assert(all.unref().to_set().contains(*id));
            assert(!before.contains(*id)) by {
                if before.contains(*id) {
                    let i = choose|i: int| 0 <= i < before.len() && before[i] == *id;
                    let k = choose|k: int| 0 <= k < at && all.take(at)[k] == &before[i];
                    assert(all[k] == all[at]);
                }
            }
            assert forall|i: int| 0 <= i < before.len() implies all.take(at + 1).contains(
                &#[trigger] before[i],
            ) by {
                let k = choose|k: int| 0 <= k < at && all.take(at)[k] == &before[i];
                assert(all.take(at + 1)[k] == &before[i]);
            }
            assert(all.take(at + 1)[at] == id);
        }
        if let Some(entry) = m.get(id) {
            if entry.0 == widget && entry.1 <= upto_era {
                ids.push(*id);
                assert(ids@.last() == *id);
                assert forall|i: int| 0 <= i < at implies (ids@.contains(*#[trigger] all[i])
                    <==> before.contains(*all[i])) by {
                    assert(all[i] != all[at]);
                    if before.contains(*all[i]) {
                        let k = choose|k: int| 0 <= k < before.len() && before[k] == *all[i];
                        assert(ids@[k] == *all[i]);
                    }
                }
            }
        }
    }
    assert forall|id: u32| #[trigger] ids@.contains(id) <==> m@.contains_key(id) && is_victim(
        m@[id],
        widget,
        upto_era,
    ) by {
        if ids@.contains(id) {
            let i = choose|i: int| 0 <= i < ids@.len() && ids@[i] == id;
            assert(all.take(all.len() as int).contains(&ids@[i]));
            let k = choose|k: int| 0 <= k < all.len() && all.take(all.len() as int)[k] == &ids@[i];
            assert(all[k] == &id);
            assert(all.unref()[k] == id);
            assert(all.unref().to_set().contains(id));
        }
        if m@.contains_key(id) {
            assert(all.unref().to_set().contains(id));
            let k = choose|k: int| 0 <= k < all.unref().len() && all.unref()[k] == id;
            assert(*all[k] == id);
        }
    }
    ids
}

/// Whether a list holds the requests of callbacks and the callbacks, each once,
/// that `wanted` picks from those that wait.
pub open spec fn takes<V>(
    taken: Seq<(u32, V)>,
    waiting: Map<u32, V>,
    wanted: spec_fn(u32) -> bool,
) -> bool {
    &&& forall|i: int, j: int|
        0 <= i < j < taken.len() ==> (#[trigger] taken[i]).0 != (#[trigger] taken[j]).0
    &&& forall|i: int|
        0 <= i < taken.len() ==> waiting.contains_key((#[trigger] taken[i]).0) && wanted(
            taken[i].0,
        ) && taken[i].1 == waiting[taken[i].0]
    &&& forall|id: u32| #[trigger]
        waiting.contains_key(id) && wanted(id) ==> exists|i: int|
            0 <= i < taken.len() && (#[trigger] taken[i]).0 == id
}

/// Takes the callbacks of the given requests.
fn take_ids<V>(m: &mut HashMap<u32, V>, ids: &Vec<u32>) -> (taken: Vec<(u32, V)>)
    requires
        ids@.no_duplicates(),
        forall|i: int| 0 <= i < ids@.len() ==> old(m)@.contains_key(#[trigger] ids@[i]),
    ensures
        final(m)@ == old(m)@.remove_keys(ids@.to_set()),
        takes(taken@, old(m)@, |id: u32| ids@.contains(id)),
{
    let ghost before = m@;
    let mut taken: Vec<(u32, V)> = Vec::new();
    let mut i: usize = 0;
    assert(before.remove_keys(ids@.take(0).to_set()) =~= before);
    while i < ids.len()
        invariant
            i <= ids@.len(),
            ids@.no_duplicates(),
            forall|k: int| 0 <= k < ids@.len() ==> before.contains_key(#[trigger] ids@[k]),
            m@ == before.remove_keys(ids@.take(i as int).to_set()),
            taken@.len() == i,
            forall|k: int|
                0 <= k < i ==> (#[trigger] taken@[k]).0 == ids@[k] && taken@[k].1 == before[ids@[k]],
        decreases ids@.len() - i,
    {
        let id: u32 = ids[i];
        assert(!ids@.take(i as int).contains(id));
        assert(m@.contains_key(id));
        let ghost waiting = m@;
        assert(ids@.take(i + 1).to_set() =~= ids@.take(i as int).to_set().insert(id)) by {
            assert(ids@.take(i + 1) =~= ids@.take(i as int).push(id));
            assert forall|x: u32| ids@.take(i + 1).to_set().contains(x) <==> ids@.take(
                i as int,
            ).to_set().insert(id).contains(x) by {
                if ids@.take(i as int).contains(x) {
                    let k = choose|k: int|
                        0 <= k < ids@.take(i as int).len() && ids@.take(i as int)[k] == x;
                    assert(ids@.take(i + 1)[k] == x);
                }
                assert(ids@.take(i + 1)[i as int] == id);
            }
        }
        if let Some(callback) = m.remove(&id) {
            assert(m@ =~= waiting.remove(id));
            assert(m@ =~= before.remove_keys(ids@.take(i + 1).to_set()));
            taken.push((id, callback));
        }
        i += 1;
    }
    assert(ids@.take(ids@.len() as int) =~= ids@);
    assert forall|id: u32| #[trigger]
        before.contains_key(id) && ids@.contains(id) implies exists|k: int|
        0 <= k < taken@.len() && (#[trigger] taken@[k]).0 == id by {
        let k = choose|k: int| 0 <= k < ids@.len() && ids@[k] == id;
        assert(taken@[k].0 == id);
    }
    taken
}

/// Takes every callback, in no certain order.
fn take_all<V>(m: &mut HashMap<u32, V>) -> (taken: Vec<(u32, V)>)
    ensures
        final(m)@ == Map::<u32, V>::empty(),
        takes(taken@, old(m)@, |id: u32| true),
{
    let mut ids: Vec<u32> = Vec::new();
    let ghost before = m@;
    let ghost all = vstd::std_specs::iter::IteratorSpec::remaining(&m.keys());
    for id in it: m.keys()
        invariant
            it.seq() == all,
            all.no_duplicates(),
            ids@ == all.unref().take(it.index()),
    {
        ids.push(*id);
    }
    assert(all.unref().take(all.len() as int) =~= all.unref());
    assert forall|i: int, j: int| 0 <= i < j < ids@.len() implies ids@[i] != ids@[j] by {
        assert(all[i] != all[j]);
    }
    assert forall|i: int| 0 <= i < ids@.len() implies before.contains_key(#[trigger] ids@[i]) by {
        assert(all.unref().to_set().contains(ids@[i]));
    }
    let taken = take_ids(m, &ids);
    assert forall|id: u32| #[trigger] before.contains_key(id) implies ids@.contains(id) by {
        assert(all.unref().to_set().contains(id));
    }
    assert(m@ =~= Map::<u32, V>::empty()) by {
        assert forall|id: u32| !m@.contains_key(id) by {
            if before.contains_key(id) {
                assert(ids@.to_set().contains(id));
            }
        }
    }
    assert forall|id: u32| #[trigger] before.contains_key(id) implies exists|i: int|
        0 <= i < taken@.len() && (#[trigger] taken@[i]).0 == id by {
        assert(before.contains_key(id) && ids@.contains(id));
    }
    taken
}

impl<V> WebCallbacks<V> {
    /// No callbacks.
    pub fn new() -> (callbacks: Self)
        ensures
            callbacks.evals@ == Map::<u32, (i64, u64, V)>::empty(),
            callbacks.cookie_sets@ == Map::<u32, V>::empty(),
            callbacks.cookie_clears@ == Map::<u32, V>::empty(),
    {
        WebCallbacks {
            evals: HashMap::new(),
            cookie_sets: HashMap::new(),
            cookie_clears: HashMap::new(),
        }
    }
}

/// Keeps a callback for the result of a script.
pub fn await_eval<V>(
    callbacks: &mut WebCallbacks<V>,
    request_id: u32,
    widget: i64,
    era: u64,
    callback: V,
)
    ensures
        final(callbacks).evals@ == old(callbacks).evals@.insert(
            request_id,
            (widget, era, callback),
        ),
        final(callbacks).cookie_sets == old(callbacks).cookie_sets,
        final(callbacks).cookie_clears == old(callbacks).cookie_clears,
{
    callbacks.evals.insert(request_id, (widget, era, callback));
}

/// Keeps a callback for a cookie to be set.
pub fn await_cookie_set<V>(callbacks: &mut WebCallbacks<V>, request_id: u32, callback: V)
    ensures
        final(callbacks).cookie_sets@ == old(callbacks).cookie_sets@.insert(request_id, callback),
        final(callbacks).evals == old(callbacks).evals,
        final(callbacks).cookie_clears == old(callbacks).cookie_clears,
{
    callbacks.cookie_sets.insert(request_id, callback);
}

/// Keeps a callback for cookies to be cleared.
pub fn await_cookie_clear<V>(callbacks: &mut WebCallbacks<V>, request_id: u32, callback: V)
    ensures
        final(callbacks).cookie_clears@ == old(callbacks).cookie_clears@.insert(
            request_id,
            callback,
        ),
        final(callbacks).evals == old(callbacks).evals,
        final(callbacks).cookie_sets == old(callbacks).cookie_sets,
{
    callbacks.cookie_clears.insert(request_id, callback);
}

/// What waits under the number of a request.
pub open spec fn waiting<V>(m: Map<u32, V>, request_id: u32) -> Option<V> {
    if m.contains_key(request_id) {
        Some(m[request_id])
    } else {
        None
    }
}

fn take_one<V>(m: &mut HashMap<u32, V>, request_id: u32) -> (taken: Option<V>)
    ensures
        taken == waiting(old(m)@, request_id),
        taken == (if old(m)@.contains_key(request_id) {
            Some(old(m)@[request_id])
        } else {
            None
        }),
        final(m)@ == old(m)@.remove(request_id),
{
    let taken = m.remove(&request_id);
    assert(m@ =~= old(m)@.remove(request_id));
    taken
}

/// Takes the callback that gets the result of a script, and what it is answered:
/// the result where the script ran, else `null`. There is none where nobody waits.
pub fn answer_eval<'a, V>(
    callbacks: &mut WebCallbacks<V>,
    request_id: u32,
    ok: bool,
    value_json: &'a str,
) -> (answer: Option<(V, &'a str)>)
    ensures
        match waiting(old(callbacks).evals@, request_id) {
            Some((_, _, callback)) => match answer {
                Some((answered, value)) => answered == callback && value@ == (if ok {
                    value_json@
                } else {
                    "null"@
                }),
                None => false,
            },
            None => answer is None,
        },
        (answer is Some) == old(callbacks).evals@.contains_key(request_id),
        answer is Some ==> (answer->0).0 == old(callbacks).evals@[request_id].2,
        answer is Some && ok ==> (answer->0).1@ == value_json@,
        answer is Some && !ok ==> (answer->0).1@ == "null"@,
        final(callbacks).evals@ == old(callbacks).evals@.remove(request_id),
        final(callbacks).cookie_sets == old(callbacks).cookie_sets,
        final(callbacks).cookie_clears == old(callbacks).cookie_clears,
{
    let value: &'a str = if ok {
        value_json
    } else {
        "null"
    };
    match take_one(&mut callbacks.evals, request_id) {
        Some((_, _, callback)) => Some((callback, value)),
        None => None,
    }
}

/// Takes the callback that is told whether a cookie was set.
pub fn answer_cookie_set<V>(callbacks: &mut WebCallbacks<V>, request_id: u32) -> (callback: Option<
    V,
>)
    ensures
        callback == waiting(old(callbacks).cookie_sets@, request_id),
        callback == (if old(callbacks).cookie_sets@.contains_key(request_id) {
            Some(old(callbacks).cookie_sets@[request_id])
        } else {
            None
        }),
        final(callbacks).cookie_sets@ == old(callbacks).cookie_sets@.remove(request_id),
        final(callbacks).evals == old(callbacks).evals,
        final(callbacks).cookie_clears == old(callbacks).cookie_clears,
{
    take_one(&mut callbacks.cookie_sets, request_id)
}

/// Takes the callback that is told whether cookies were cleared.
pub fn answer_cookie_clear<V>(callbacks: &mut WebCallbacks<V>, request_id: u32) -> (callback:
    Option<V>)
    ensures
        callback == waiting(old(callbacks).cookie_clears@, request_id),
        callback == (if old(callbacks).cookie_clears@.contains_key(request_id) {
            Some(old(callbacks).cookie_clears@[request_id])
        } else {
            None
        }),
        final(callbacks).cookie_clears@ == old(callbacks).cookie_clears@.remove(request_id),
        final(callbacks).evals == old(callbacks).evals,
        final(callbacks).cookie_sets == old(callbacks).cookie_sets,
{
    take_one(&mut callbacks.cookie_clears, request_id)
}

/// Takes the callbacks that go with a web view that closed; each is to be answered
/// `null`.
pub fn drain_eval_callbacks_for_view<V>(
    callbacks: &mut WebCallbacks<V>,
    widget: i64,
    upto_era: u64,
) -> (taken: Vec<(u32, (i64, u64, V))>)
    ensures
        takes(
            taken@,
            old(callbacks).evals@,
            |id: u32| is_victim(old(callbacks).evals@[id], widget, upto_era),
        ),
        forall|id: u32| #[trigger]
            final(callbacks).evals@.contains_key(id) <==> old(callbacks).evals@.contains_key(id)
                && !is_victim(old(callbacks).evals@[id], widget, upto_era),
        forall|id: u32| #[trigger]
            final(callbacks).evals@.contains_key(id) <==> old(callbacks).evals@.contains_key(id)
                && !(old(callbacks).evals@[id].0 == widget && old(callbacks).evals@[id].1
                <= upto_era),
        forall|id: u32| #[trigger]
            final(callbacks).evals@.contains_key(id) ==> final(callbacks).evals@[id] == old(
                callbacks,
            ).evals@[id],
        final(callbacks).cookie_sets == old(callbacks).cookie_sets,
        final(callbacks).cookie_clears == old(callbacks).cookie_clears,
{
    let ghost before = callbacks.evals@;
    let ids = eval_drain_victims(&callbacks.evals, widget, upto_era);
    assert forall|i: int| 0 <= i < ids@.len() implies before.contains_key(#[trigger] ids@[i]) by {
        assert(ids@.contains(ids@[i]));
    }
    let taken = take_ids(&mut callbacks.evals, &ids);
    assert forall|id: u32| #[trigger] callbacks.evals@.contains_key(id) <==> before.contains_key(id)
        && !is_victim(before[id], widget, upto_era) by {
        assert(ids@.contains(id) <==> ids@.to_set().contains(id));
    }
    assert forall|i: int| 0 <= i < taken@.len() implies is_victim(
        before[(#[trigger] taken@[i]).0],
        widget,
        upto_era,
    ) by {
        assert(ids@.contains(taken@[i].0));
    }
    assert forall|id: u32| #[trigger]
        before.contains_key(id) && is_victim(before[id], widget, upto_era) implies exists|i: int|
        0 <= i < taken@.len() && (#[trigger] taken@[i]).0 == id by {
        assert(ids@.contains(id));
        assert(before.contains_key(id) && ids@.contains(id));
    }
    taken
}

/// The callbacks that the web engine leaves without an answer as it goes: those for
/// scripts are to be answered `null`, the others that nothing was done.
pub struct LostCallbacks<V> {
    pub evals: Vec<(u32, (i64, u64, V))>,
    pub cookie_sets: Vec<(u32, V)>,
    pub cookie_clears: Vec<(u32, V)>,
}

/// Takes every callback, as the web engine goes.
pub fn drain_all_webview_callbacks<V>(callbacks: &mut WebCallbacks<V>) -> (lost: LostCallbacks<V>)
    ensures
        takes(lost.evals@, old(callbacks).evals@, |id: u32| true),
        takes(lost.cookie_sets@, old(callbacks).cookie_sets@, |id: u32| true),
        takes(lost.cookie_clears@, old(callbacks).cookie_clears@, |id: u32| true),
        final(callbacks).evals@ == Map::<u32, (i64, u64, V)>::empty(),
        final(callbacks).cookie_sets@ == Map::<u32, V>::empty(),
        final(callbacks).cookie_clears@ == Map::<u32, V>::empty(),
{
    LostCallbacks {
        evals: take_all(&mut callbacks.evals),
        cookie_sets: take_all(&mut callbacks.cookie_sets),
        cookie_clears: take_all(&mut callbacks.cookie_clears),
    }
}

/// How many callbacks wait.
pub fn webview_callbacks_in_flight<V>(callbacks: &WebCallbacks<V>) -> (n: usize)
    requires
        callbacks.evals@.len() + callbacks.cookie_sets@.len() + callbacks.cookie_clears@.len()
            <= usize::MAX,
    ensures
        n == callbacks.evals@.len() + callbacks.cookie_sets@.len() + callbacks.cookie_clears@.len(),
{
    callbacks.evals.len() + callbacks.cookie_sets.len() + callbacks.cookie_clears.len()
}

/// A callback is answered once: after its answer nobody waits under that number,
/// and everybody else still waits.
pub proof fn law_answered_once<V>(m: Map<u32, V>, request_id: u32, other: u32)
    requires
        other != request_id,
    ensures
        waiting(m.remove(request_id), request_id) is None,
        waiting(m.remove(request_id), other) == waiting(m, other),
{
}

/// A callback that was left with the web view gets the answer to its request.
pub proof fn law_awaited_is_answered<V>(m: Map<u32, V>, request_id: u32, callback: V)
    ensures
        waiting(m.insert(request_id, callback), request_id) == Some(callback),
{
}

/// A list of what was taken holds everything that was wanted and nothing else: each
/// request once, with what waited under its number.
pub proof fn law_taken_are_those_that_waited<V>(
    taken: Seq<(u32, V)>,
    m: Map<u32, V>,
    wanted: spec_fn(u32) -> bool,
    id: u32,
)
    requires
        takes(taken, m, wanted),
    ensures
        m.contains_key(id) && wanted(id) ==> taken.contains((id, m[id])),
        forall|i: int|
            0 <= i < taken.len() ==> m.contains_key((#[trigger] taken[i]).0) && wanted(taken[i].0)
                && taken[i].1 == m[taken[i].0],
        forall|i: int, j: int|
            0 <= i < taken.len() && 0 <= j < taken.len() && i != j ==> (#[trigger] taken[i]).0 != (
            #[trigger] taken[j]).0,
{
    if m.contains_key(id) && wanted(id) {
        let i = choose|i: int| 0 <= i < taken.len() && (#[trigger] taken[i]).0 == id;
        assert(taken[i] == (id, m[id]));
    }
    assert forall|i: int, j: int|
        0 <= i < taken.len() && 0 <= j < taken.len() && i != j implies (#[trigger] taken[i]).0 != (
    #[trigger] taken[j]).0 by {
        if j < i {
            assert(taken[j].0 != taken[i].0);
        }
    }
}

/// A callback goes with the web view that its script ran in, and only where it was
/// handed in no later than the era.
pub proof fn law_callback_goes_with_its_view<V>(
    view: i64,
    era: u64,
    callback: V,
    widget: i64,
    upto_era: u64,
)
    ensures
        view != widget ==> !is_victim((view, era, callback), widget, upto_era),
        era > upto_era ==> !is_victim((view, era, callback), widget, upto_era),
        era <= upto_era ==> is_victim((view, era, callback), view, upto_era),
{
}

} // verus!
