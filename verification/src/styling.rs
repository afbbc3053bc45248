//! Merging styles into themes.

use std::collections::{HashMap, HashSet};
use vstd::prelude::*;

use crate::resources;
use crate::resources::{Resources, Style, StyleEntry, MAX_THEME_PARENT_DEPTH};
use crate::theme_registry::{Theme, ThemeAttr};

verus! {

broadcast use vstd::std_specs::hash::group_hash_axioms;

/// The attributes after one more value was offered: an attribute that already has
/// a value keeps it, and attribute zero is no attribute.
pub open spec fn offered(
    attrs: Map<i32, ThemeAttr>,
    entry: StyleEntry,
    package: u8,
) -> Map<i32, ThemeAttr> {
    let key = resources::signed(entry.attr_id);
    if entry.attr_id == 0 || attrs.contains_key(key) {
        attrs
    } else {
        attrs.insert(
            key,
            ThemeAttr { type_: entry.type_, data: entry.data, source_package: package },
        )
    }
}

/// The attributes after the first `n` values of a style were offered.
pub open spec fn offered_all(
    attrs: Map<i32, ThemeAttr>,
    entries: Seq<StyleEntry>,
    package: u8,
    n: nat,
) -> Map<i32, ThemeAttr>
    decreases n,
{
    if n == 0 {
        attrs
    } else {
        offered(offered_all(attrs, entries, package, (n - 1) as nat), entries[n - 1], package)
    }
}

/// The attributes after a style and its ancestors offered their values, the style
/// first. The chain ends at a style without a parent, at one that is in no table,
/// at one that was visited before, or after `fuel` styles.
pub open spec fn merged(
    res: Resources,
    attrs: Map<i32, ThemeAttr>,
    style: u32,
    visited: Set<u32>,
    fuel: nat,
) -> Map<i32, ThemeAttr>
    decreases fuel,
{
    if fuel == 0 || style == 0 || visited.contains(style) {
        attrs
    } else {
        match res.style_of(style) {
            Some(s) => merged(
                res,
                offered_all(attrs, s.entries@, resources::package_of(style), s.entries@.len()),
                s.parent_id,
                visited.insert(style),
                (fuel - 1) as nat,
            ),
            None => attrs,
        }
    }
}

/// The attributes after a style was merged into them.
pub open spec fn merged_style(res: Resources, attrs: Map<i32, ThemeAttr>, style: u32) -> Map<
    i32,
    ThemeAttr,
> {
    merged(res, attrs, style, Set::empty(), MAX_THEME_PARENT_DEPTH as nat)
}

fn find_style<'a>(res: &'a Resources, id: u32) -> (style: Option<&'a Style>)
    ensures
        match style {
            Some(s) => res.style_of(id) == Some(*s),
            None => res.style_of(id) is None,
        },
{
    match res.arsc_table_for(id) {
        Some(table) => table.styles.get(&id),
        None => None,
    }
}

/// Offers the values of a style to `out`.
fn merge_entries(out: &mut HashMap<i32, ThemeAttr>, entries: &Vec<StyleEntry>, package: u8)
    ensures
        final(out)@ == offered_all(old(out)@, entries@, package, entries@.len()),
        final(out)@.len() >= old(out)@.len(),
{
    let mut i: usize = 0;
    while i < entries.len()
        invariant
            i <= entries@.len(),
            out@ == offered_all(old(out)@, entries@, package, i as nat),
            out@.len() >= old(out)@.len(),
        decreases entries@.len() - i,
    {
        let entry: StyleEntry = entries[i];
        if entry.attr_id != 0 {
            let key: i32 = resources::u32_to_i32(entry.attr_id);
            if !out.contains_key(&key) {
                out.insert(
                    key,
                    ThemeAttr { type_: entry.type_, data: entry.data, source_package: package },
                );
            }
        }
        i += 1;
    }
}

/// Merges a style and its ancestors into `out`, the nearest first, and returns
/// how many attributes got a value. An attribute that has one keeps it.
pub fn merge_theme_style(
    res: &Resources,
    out: &mut HashMap<i32, ThemeAttr>,
    style_res: u32,
) -> (contributed: usize)
    ensures
        final(out)@ == merged_style(*res, old(out)@, style_res),
        contributed == final(out)@.len() - old(out)@.len(),
{
    let before: usize = out.len();
    let mut current: u32 = style_res;
    let mut visited: HashSet<u32> = HashSet::new();
    let ghost end = merged_style(*res, out@, style_res);
    let mut left: usize = MAX_THEME_PARENT_DEPTH;
    assert(visited@ =~= Set::<u32>::empty());
    while left > 0
        invariant_except_break
            merged(*res, out@, current, visited@, left as nat) == end,
        invariant
            out@.len() >= old(out)@.len(),
        ensures
            out@ == end,
        decreases left,
    {
        if current == 0 || visited.contains(&current) {
            break;
        }
        visited.insert(current);
        let style = match find_style(res, current) {
            Some(style) => style,
            None => {
                break;
            },
        };
        merge_entries(out, &style.entries, resources::package_id(current));
        current = style.parent_id;
        left -= 1;
    }
    out.len() - before
}

/// The attributes of a theme after the values of `chain` were laid over them:
/// with `force` they replace what is there, else they only fill what is missing.
pub open spec fn overlaid(
    attrs: Map<i32, ThemeAttr>,
    chain: Map<i32, ThemeAttr>,
    force: bool,
) -> Map<i32, ThemeAttr> {
    if force {
        attrs.union_prefer_right(chain)
    } else {
        chain.union_prefer_right(attrs)
    }
}

/// Applies a style to a theme. The style is recorded, and its values and those of
/// its ancestors are laid over the theme's attributes.
pub fn apply_theme_style(res: &Resources, theme: &mut Theme, style_res: i32, force: bool)
    ensures
        final(theme).styles@ == old(theme).styles@.push(style_res),
        final(theme).attrs@ == overlaid(
            old(theme).attrs@,
            merged_style(*res, Map::empty(), resources::unsigned(style_res)),
            force,
        ),
{
    let ghost before = theme.attrs@;
    let style: u32 = resources::i32_to_u32(style_res);
    let mut chain: HashMap<i32, ThemeAttr> = HashMap::new();
    merge_theme_style(res, &mut chain, style);
    theme.styles.push(style_res);
    let ghost target = overlaid(before, chain@, force);
    let ghost pairs = vstd::std_specs::iter::IteratorSpec::remaining(&chain.iter());
    for (attr, val) in it: chain.iter()
        invariant
            theme.styles@ == old(theme).styles@.push(style_res),
            target == overlaid(before, chain@, force),
            it.seq() == pairs,
            forall|k: i32| #[trigger]
                before.contains_key(k) ==> theme.attrs@.contains_key(k),
            forall|k: i32| #[trigger]
                theme.attrs@.contains_key(k) ==> target.contains_key(k) && (theme.attrs@[k]
                    == target[k] || (before.contains_key(k) && theme.attrs@[k] == before[k])),
            forall|i: int|
                0 <= i < it.index() ==> theme.attrs@.contains_key(*(#[trigger] pairs[i]).0)
                    && theme.attrs@[*pairs[i].0] == target[*pairs[i].0],
    {
        if force {
            theme.attrs.insert(*attr, *val);
        } else if !theme.attrs.contains_key(attr) {
            theme.attrs.insert(*attr, *val);
        }
    }
    assert forall|k: i32| #[trigger] target.contains_key(k) implies theme.attrs@.contains_key(k)
        && theme.attrs@[k] == target[k] by {
        if chain@.contains_key(k) {
            let i = pairs.index_of((&k, &chain@[k]));
            assert(*pairs[i].0 == k);
        }
    }
    assert(theme.attrs@ =~= target);
}

proof fn lemma_offered_all_keeps(
    attrs: Map<i32, ThemeAttr>,
    entries: Seq<StyleEntry>,
    package: u8,
    n: nat,
    key: i32,
)
    requires
        n <= entries.len(),
        attrs.contains_key(key),
    ensures
        offered_all(attrs, entries, package, n).contains_key(key),
        offered_all(attrs, entries, package, n)[key] == attrs[key],
    decreases n,
{
    if n > 0 {
        lemma_offered_all_keeps(attrs, entries, package, (n - 1) as nat, key);
    }
}

proof fn lemma_offered_all_takes(
    attrs: Map<i32, ThemeAttr>,
    entries: Seq<StyleEntry>,
    package: u8,
    n: nat,
    at: int,
)
    requires
        0 <= at < n <= entries.len(),
        entries[at].attr_id != 0,
        !attrs.contains_key(resources::signed(entries[at].attr_id)),
        forall|j: int| 0 <= j < at ==> (#[trigger] entries[j]).attr_id != entries[at].attr_id,
    ensures
        ({
            let key = resources::signed(entries[at].attr_id);
            let after = offered_all(attrs, entries, package, n);
            &&& after.contains_key(key)
            &&& after[key] == (ThemeAttr {
                type_: entries[at].type_,
                data: entries[at].data,
                source_package: package,
            })
        }),
    decreases n,
{
    let key = resources::signed(entries[at].attr_id);
    if n - 1 > at {
        lemma_offered_all_takes(attrs, entries, package, (n - 1) as nat, at);
    } else {
        lemma_offered_all_lacks(attrs, entries, package, at as nat, entries[at].attr_id);
    }
}

proof fn lemma_offered_all_lacks(
    attrs: Map<i32, ThemeAttr>,
    entries: Seq<StyleEntry>,
    package: u8,
    n: nat,
    attr_id: u32,
)
    requires
        n <= entries.len(),
        !attrs.contains_key(resources::signed(attr_id)),
        forall|j: int| 0 <= j < n ==> (#[trigger] entries[j]).attr_id != attr_id,
    ensures
        !offered_all(attrs, entries, package, n).contains_key(resources::signed(attr_id)),
    decreases n,
{
    if n > 0 {
        lemma_offered_all_lacks(attrs, entries, package, (n - 1) as nat, attr_id);
        resources::law_ids_keep_their_bits(attr_id, 0);
        resources::law_ids_keep_their_bits(entries[n - 1].attr_id, 0);
    }
}

proof fn lemma_merged_keeps(
    res: Resources,
    attrs: Map<i32, ThemeAttr>,
    style: u32,
    visited: Set<u32>,
    fuel: nat,
    key: i32,
)
    requires
        attrs.contains_key(key),
    ensures
        merged(res, attrs, style, visited, fuel).contains_key(key),
        merged(res, attrs, style, visited, fuel)[key] == attrs[key],
    decreases fuel,
{
    if fuel == 0 || style == 0 || visited.contains(style) || res.style_of(style) is None {
    } else {
        let s = res.style_of(style)->0;
        let package = resources::package_of(style);
        lemma_offered_all_keeps(attrs, s.entries@, package, s.entries@.len(), key);
        lemma_merged_keeps(
            res,
            offered_all(attrs, s.entries@, package, s.entries@.len()),
            s.parent_id,
            visited.insert(style),
            (fuel - 1) as nat,
            key,
        );
    }
}

/// A value that was merged first stays. Whatever styles are merged
/// afterwards, an attribute that has a value keeps it.
pub proof fn law_first_value_stays(
    res: Resources,
    attrs: Map<i32, ThemeAttr>,
    style: u32,
    key: i32,
)
    requires
        attrs.contains_key(key),
    ensures
        merged_style(res, attrs, style).contains_key(key),
        merged_style(res, attrs, style)[key] == attrs[key],
{
    lemma_merged_keeps(res, attrs, style, Set::empty(), MAX_THEME_PARENT_DEPTH as nat, key);
}

/// A style's own value for an attribute counts, whatever its ancestors say,
/// and comes with the package of the style.
pub proof fn law_own_value_beats_inherited(
    res: Resources,
    attrs: Map<i32, ThemeAttr>,
    style: u32,
    at: int,
)
    requires
        style != 0,
        res.style_of(style) is Some,
        0 <= at < res.style_of(style)->0.entries@.len(),
        ({
            let entries = res.style_of(style)->0.entries@;
            &&& entries[at].attr_id != 0
            &&& !attrs.contains_key(resources::signed(entries[at].attr_id))
            &&& forall|j: int|
                0 <= j < at ==> (#[trigger] entries[j]).attr_id != entries[at].attr_id
        }),
    ensures
        ({
            let entry = res.style_of(style)->0.entries@[at];
            let after = merged_style(res, attrs, style);
            &&& after.contains_key(resources::signed(entry.attr_id))
            &&& after[resources::signed(entry.attr_id)] == (ThemeAttr {
                type_: entry.type_,
                data: entry.data,
                source_package: resources::package_of(style),
            })
        }),
{
    let s = res.style_of(style)->0;
    let package = resources::package_of(style);
    let own = offered_all(attrs, s.entries@, package, s.entries@.len());
    lemma_offered_all_takes(attrs, s.entries@, package, s.entries@.len(), at);
    lemma_merged_keeps(
        res,
        own,
        s.parent_id,
        Set::empty().insert(style),
        (MAX_THEME_PARENT_DEPTH - 1) as nat,
        resources::signed(s.entries@[at].attr_id),
    );
}

/// A style that is applied without force changes no attribute that has a
/// value; applied with force it gives every attribute of its chain the chain's
/// value.
pub proof fn law_force_decides_who_wins(
    attrs: Map<i32, ThemeAttr>,
    chain: Map<i32, ThemeAttr>,
    key: i32,
)
    ensures
        attrs.contains_key(key) ==> overlaid(attrs, chain, false)[key] == attrs[key],
        chain.contains_key(key) ==> overlaid(attrs, chain, true)[key] == chain[key],
        chain.contains_key(key) && !attrs.contains_key(key) ==> overlaid(attrs, chain, false)[key]
            == chain[key],
        attrs.contains_key(key) && !chain.contains_key(key) ==> overlaid(attrs, chain, true)[key]
            == attrs[key],
        forall|force: bool| #[trigger]
            overlaid(attrs, chain, force).contains_key(key) <==> (attrs.contains_key(key)
                || chain.contains_key(key)),
{
}

spec fn offered_chain(
    res: Resources,
    attrs: Map<i32, ThemeAttr>,
    chain: Seq<u32>,
    n: nat,
) -> Map<i32, ThemeAttr>
    decreases n,
{
    if n == 0 {
        attrs
    } else {
        let entries = res.style_of(chain[n - 1])->0.entries@;
        offered_all(
            offered_chain(res, attrs, chain, (n - 1) as nat),
            entries,
            resources::package_of(chain[n - 1]),
            entries.len(),
        )
    }
}

proof fn lemma_chain_walk(
    res: Resources,
    attrs: Map<i32, ThemeAttr>,
    chain: Seq<u32>,
    i: nat,
    fuel: nat,
    next: u32,
)
    requires
        i <= chain.len(),
        i <= fuel,
        forall|k: int| 0 <= k < chain.len() ==> #[trigger] chain[k] != 0,
        forall|j: int, k: int|
            0 <= j < k < chain.len() ==> #[trigger] chain[j] != #[trigger] chain[k],
        forall|k: int|
            0 <= k < chain.len() ==> res.style_of(#[trigger] chain[k]) is Some && res.style_of(
                chain[k],
            )->0.parent_id == (if k + 1 < chain.len() {
                chain[k + 1]
            } else {
                next
            }),
    ensures
        merged(
            res,
            attrs,
            if chain.len() > 0 {
                chain[0]
            } else {
                next
            },
            Set::empty(),
            fuel,
        ) == merged(
            res,
            offered_chain(res, attrs, chain, i),
            if i < chain.len() {
                chain[i as int]
            } else {
                next
            },
            Set::new(|s: u32| exists|k: int| 0 <= k < i && #[trigger] chain[k] == s),
            (fuel - i) as nat,
        ),
    decreases i,
{
    let visited = Set::new(|s: u32| exists|k: int| 0 <= k < i && #[trigger] chain[k] == s);
    if i == 0 {
        assert(visited =~= Set::empty());
    } else {
        let m = (i - 1) as nat;
        lemma_chain_walk(res, attrs, chain, m, fuel, next);
        let earlier = Set::new(|s: u32| exists|k: int| 0 <= k < m && #[trigger] chain[k] == s);
        let style = chain[m as int];
        assert(!earlier.contains(style));
        assert(visited =~= earlier.insert(style)) by {
            assert forall|s: u32| visited.contains(s) == earlier.insert(style).contains(s) by {
                if visited.contains(s) {
                    let k = choose|k: int| 0 <= k < i && #[trigger] chain[k] == s;
                    if k < m {
                        assert(earlier.contains(s));
                    }
                }
                if s == style {
                    assert(chain[m as int] == s);
                }
                if earlier.contains(s) {
                    let k = choose|k: int| 0 <= k < m && #[trigger] chain[k] == s;
                    assert(chain[k] == s);
                }
            }
        }
    }
}

proof fn lemma_chain_lacks(
    res: Resources,
    attrs: Map<i32, ThemeAttr>,
    chain: Seq<u32>,
    n: nat,
    attr_id: u32,
)
    requires
        n <= chain.len(),
        !attrs.contains_key(resources::signed(attr_id)),
        forall|k: int, j: int|
            0 <= k < n && 0 <= j < res.style_of(chain[k])->0.entries@.len() ==> (
            #[trigger] res.style_of(chain[k])->0.entries@[j]).attr_id != attr_id,
    ensures
        !offered_chain(res, attrs, chain, n).contains_key(resources::signed(attr_id)),
    decreases n,
{
    if n > 0 {
        let m = (n - 1) as nat;
        lemma_chain_lacks(res, attrs, chain, m, attr_id);
        let entries = res.style_of(chain[n - 1])->0.entries@;
        assert forall|j: int| 0 <= j < entries.len() implies (#[trigger] entries[j]).attr_id
            != attr_id by {
            assert(res.style_of(chain[m as int])->0.entries@[j].attr_id != attr_id);
        }
        lemma_offered_all_lacks(
            offered_chain(res, attrs, chain, m),
            entries,
            resources::package_of(chain[n - 1]),
            entries.len(),
            attr_id,
        );
    }
}

/// A style hands on what its ancestors set. In a chain of different styles, each the
/// parent of the one before and sixty-four of them at most, an attribute that the last
/// one sets, that no style before it sets and that had no value, gets the last style's
/// first value for it, with that style's package.
pub proof fn law_ancestors_give_what_is_missing(
    res: Resources,
    attrs: Map<i32, ThemeAttr>,
    chain: Seq<u32>,
    at: int,
)
    requires
        1 <= chain.len() <= 64,
        forall|k: int| 0 <= k < chain.len() ==> #[trigger] chain[k] != 0,
        forall|j: int, k: int|
            0 <= j < k < chain.len() ==> #[trigger] chain[j] != #[trigger] chain[k],
        forall|k: int| 0 <= k < chain.len() ==> res.style_of(#[trigger] chain[k]) is Some,
        forall|k: int|
            0 <= k < chain.len() - 1 ==> res.style_of(#[trigger] chain[k])->0.parent_id == chain[k
                + 1],
        0 <= at < res.style_of(chain.last())->0.entries@.len(),
        ({
            let entries = res.style_of(chain.last())->0.entries@;
            &&& entries[at].attr_id != 0
            &&& !attrs.contains_key(resources::signed(entries[at].attr_id))
            &&& forall|j: int|
                0 <= j < at ==> (#[trigger] entries[j]).attr_id != entries[at].attr_id
            &&& forall|k: int, j: int|
                0 <= k < chain.len() - 1 && 0 <= j < res.style_of(chain[k])->0.entries@.len() ==> (
                #[trigger] res.style_of(chain[k])->0.entries@[j]).attr_id != entries[at].attr_id
        }),
    ensures
        ({
            let entry = res.style_of(chain.last())->0.entries@[at];
            let after = merged_style(res, attrs, chain[0]);
            let key = resources::signed(entry.attr_id);
            &&& after.contains_key(key)
            &&& after[key].type_ == entry.type_
            &&& after[key].data == entry.data
            &&& after[key].source_package == resources::package_of(chain.last())
        }),
{
    let n = (chain.len() - 1) as nat;
    let style = chain.last();
    let s = res.style_of(style)->0;
    let package = resources::package_of(style);
    let key = resources::signed(s.entries@[at].attr_id);
    lemma_chain_walk(res, attrs, chain, n, 64, s.parent_id);
    let before = offered_chain(res, attrs, chain, n);
    lemma_chain_lacks(res, attrs, chain, n, s.entries@[at].attr_id);
    let own = offered_all(before, s.entries@, package, s.entries@.len());
    lemma_offered_all_takes(before, s.entries@, package, s.entries@.len(), at);
    let visited = Set::new(|x: u32| exists|k: int| 0 <= k < n && #[trigger] chain[k] == x);
    assert(chain[n as int] == style);
    assert(!visited.contains(style));
    lemma_merged_keeps(
        res,
        own,
        s.parent_id,
        visited.insert(style),
        (64 - n - 1) as nat,
        key,
    );
}

proof fn lemma_offered_all_adds(
    attrs: Map<i32, ThemeAttr>,
    entries: Seq<StyleEntry>,
    package: u8,
    n: nat,
    key: i32,
)
    requires
        n <= entries.len(),
        offered_all(attrs, entries, package, n).contains_key(key),
        !attrs.contains_key(key),
    ensures
        exists|j: int|
            0 <= j < n && (#[trigger] entries[j]).attr_id != 0 && resources::signed(
                entries[j].attr_id,
            ) == key,
    decreases n,
{
    if n > 0 {
        let before = offered_all(attrs, entries, package, (n - 1) as nat);
        if before.contains_key(key) {
            lemma_offered_all_adds(attrs, entries, package, (n - 1) as nat, key);
        } else {
            assert(entries[n - 1].attr_id != 0);
        }
    }
}

proof fn lemma_chain_adds(
    res: Resources,
    attrs: Map<i32, ThemeAttr>,
    chain: Seq<u32>,
    n: nat,
    key: i32,
)
    requires
        n <= chain.len(),
        offered_chain(res, attrs, chain, n).contains_key(key),
        !attrs.contains_key(key),
    ensures
        exists|k: int, j: int|
            {
                &&& 0 <= k < n
                &&& 0 <= j < res.style_of(chain[k])->0.entries@.len()
                &&& (#[trigger] res.style_of(chain[k])->0.entries@[j]).attr_id != 0
                &&& resources::signed(res.style_of(chain[k])->0.entries@[j].attr_id) == key
            },
    decreases n,
{
    if n > 0 {
        let m = (n - 1) as nat;
        let before = offered_chain(res, attrs, chain, m);
        let entries = res.style_of(chain[n - 1])->0.entries@;
        if before.contains_key(key) {
            lemma_chain_adds(res, attrs, chain, m, key);
        } else {
            lemma_offered_all_adds(
                before,
                entries,
                resources::package_of(chain[n - 1]),
                entries.len(),
                key,
            );
            let j = choose|j: int|
                0 <= j < entries.len() && (#[trigger] entries[j]).attr_id != 0
                    && resources::signed(entries[j].attr_id) == key;
            assert(res.style_of(chain[m as int])->0.entries@[j].attr_id != 0);
        }
    }
}

/// A style hands on nothing but what it and its ancestors set. The chain of a style ends
/// at a style without a parent, before one that is in no table, before one that stands in
/// it already, and after sixty-four styles; every attribute that gets a value is set by a
/// style of that chain.
pub proof fn law_only_the_chain_gives_values(
    res: Resources,
    attrs: Map<i32, ThemeAttr>,
    chain: Seq<u32>,
    next: u32,
    key: i32,
)
    requires
        chain.len() <= 64,
        forall|k: int| 0 <= k < chain.len() ==> #[trigger] chain[k] != 0,
        forall|j: int, k: int|
            0 <= j < k < chain.len() ==> #[trigger] chain[j] != #[trigger] chain[k],
        forall|k: int|
            0 <= k < chain.len() ==> res.style_of(#[trigger] chain[k]) is Some && res.style_of(
                chain[k],
            )->0.parent_id == (if k + 1 < chain.len() {
                chain[k + 1]
            } else {
                next
            }),
        chain.len() == 64 || next == 0 || chain.contains(next) || res.style_of(next) is None,
        ({
            let after = merged_style(
                res,
                attrs,
                if chain.len() > 0 {
                    chain[0]
                } else {
                    next
                },
            );
            after.contains_key(key) && !attrs.contains_key(key)
        }),
    ensures
        exists|k: int, j: int|
            {
                &&& 0 <= k < chain.len()
                &&& 0 <= j < res.style_of(chain[k])->0.entries@.len()
                &&& (#[trigger] res.style_of(chain[k])->0.entries@[j]).attr_id != 0
                &&& resources::signed(res.style_of(chain[k])->0.entries@[j].attr_id) == key
            },
{
    let n = chain.len();
    lemma_chain_walk(res, attrs, chain, n, 64, next);
    if chain.contains(next) {
        let k = choose|k: int| 0 <= k < chain.len() && chain[k] == next;
        assert(chain[k] == next);
    }
    lemma_chain_adds(res, attrs, chain, n, key);
}

} // verus!
