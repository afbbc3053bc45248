//! Resolving the attributes that a `TypedArray` asks for, and laying them out in
//! its buffers.

use vstd::prelude::*;

use crate::resources;
use crate::resources::{
    Resources, TypedEntry, STYLE_ASSET_COOKIE, STYLE_DATA, STYLE_NUM_ENTRIES, STYLE_RESOURCE_ID,
    STYLE_TYPE, TYPE_ATTRIBUTE, TYPE_NULL,
};
use crate::slots::Slots;
use crate::theme_registry::{Theme, ThemeHandle, ThemeRegistry};
use crate::xml_registry::{XmlAttribute, XmlBlock, XmlElement, XmlHandle, XmlRegistry};

verus! {

/// The first attribute whose name has the resource id. An id of zero is no
/// attribute's.
pub open spec fn attribute_for(attributes: Seq<XmlAttribute>, id: u32) -> Option<XmlAttribute>
    decreases attributes.len(),
{
    if attributes.len() == 0 {
        None
    } else if attributes[0].name_resource != 0 && attributes[0].name_resource == id {
        Some(attributes[0])
    } else {
        attribute_for(attributes.skip(1), id)
    }
}

/// The value that an element gives to an attribute.
pub open spec fn xml_entry(res: Resources, element: Option<XmlElement>, id: i32) -> Option<
    TypedEntry,
> {
    match element {
        Some(e) => match attribute_for(e.attributes@, resources::unsigned(id)) {
            Some(a) => Some(resources::inline_entry(res, a.value_type, a.value_data)),
            None => None,
        },
        None => None,
    }
}

/// The element that a walk is at, none for a handle without a block.
pub open spec fn element_at(blocks: Slots<XmlBlock>, state: XmlHandle) -> Option<XmlElement> {
    if blocks.live(state) {
        blocks.value(state).element()
    } else {
        None
    }
}

/// The value that the theme behind a handle gives to an attribute.
pub open spec fn themed_entry(
    res: Resources,
    themes: Slots<Theme>,
    theme: ThemeHandle,
    id: i32,
) -> Option<TypedEntry> {
    if themes.live(theme) {
        resources::theme_entry(res, themes.value(theme).attrs@, id)
    } else {
        None
    }
}

fn resolve_one_xml_attribute(res: &Resources, element: &XmlElement, id: i32) -> (entry: Option<
    TypedEntry,
>)
    ensures
        entry == xml_entry(*res, Some(*element), id),
{
    let wanted: u32 = resources::i32_to_u32(id);
    let ghost all = element.attributes@;
    let mut i: usize = 0;
    assert(all.skip(0) =~= all);
    while i < element.attributes.len()
        invariant
            i <= element.attributes@.len(),
            all == element.attributes@,
            wanted == resources::unsigned(id),
            attribute_for(all.skip(i as int), wanted) == attribute_for(all, wanted),
        decreases element.attributes@.len() - i,
    {
        let a = &element.attributes[i];
        assert(all.skip(i as int)[0] == all[i as int]);
        if a.name_resource != 0 && a.name_resource == wanted {
            return Some(resources::resolve_inline_attr_value(res, a.value_type, a.value_data));
        }
        assert(all.skip(i as int).skip(1) =~= all.skip(i + 1));
        i += 1;
    }
    None
}

/// The values that the element at hand gives to attributes.
pub fn resolve_xml_attributes(
    res: &Resources,
    blocks: &XmlRegistry,
    parse_state: XmlHandle,
    ids: &[i32],
) -> (entries: Vec<Option<TypedEntry>>)
    requires
        blocks@.wf(),
    ensures
        entries@.len() == ids@.len(),
        forall|i: int|
            0 <= i < ids@.len() ==> #[trigger] entries@[i] == xml_entry(
                *res,
                element_at(blocks@, parse_state),
                ids@[i],
            ),
{
    let element = match blocks.get(parse_state) {
        Ok(block) => block.current_element(),
        Err(_) => None,
    };
    let mut entries: Vec<Option<TypedEntry>> = Vec::new();
    let mut i: usize = 0;
    while i < ids.len()
        invariant
            i <= ids@.len(),
            entries@.len() == i,
            match element {
                Some(e) => element_at(blocks@, parse_state) == Some(*e),
                None => element_at(blocks@, parse_state) is None,
            },
            forall|j: int|
                0 <= j < i ==> #[trigger] entries@[j] == xml_entry(
                    *res,
                    element_at(blocks@, parse_state),
                    ids@[j],
                ),
        decreases ids@.len() - i,
    {
        let entry = match element {
            Some(e) => resolve_one_xml_attribute(res, e, ids[i]),
            None => None,
        };
        entries.push(entry);
        i += 1;
    }
    entries
}

/// The values that a theme gives to attributes.
pub fn resolve_theme_attributes(
    res: &Resources,
    themes: &ThemeRegistry,
    theme: ThemeHandle,
    ids: &[i32],
) -> (entries: Vec<Option<TypedEntry>>)
    requires
        themes@.wf(),
    ensures
        entries@.len() == ids@.len(),
        forall|i: int|
            0 <= i < ids@.len() ==> #[trigger] entries@[i] == themed_entry(
                *res,
                themes@,
                theme,
                ids@[i],
            ),
{
    let mut entries: Vec<Option<TypedEntry>> = Vec::new();
    let mut i: usize = 0;
    while i < ids.len()
        invariant
            i <= ids@.len(),
            entries@.len() == i,
            themes@.wf(),
            forall|j: int|
                0 <= j < i ==> #[trigger] entries@[j] == themed_entry(
                    *res,
                    themes@,
                    theme,
                    ids@[j],
                ),
        decreases ids@.len() - i,
    {
        let entry = match themes.get(theme) {
            Ok(t) => resources::resolve_theme_attr(res, &t.attrs, ids[i]),
            Err(_) => None,
        };
        entries.push(entry);
        i += 1;
    }
    entries
}

/// An entry after a reference to an attribute of the theme was resolved. It stays
/// where the theme has no value for the attribute.
pub open spec fn themed_reference(
    res: Resources,
    themes: Slots<Theme>,
    theme: ThemeHandle,
    entry: Option<TypedEntry>,
) -> Option<TypedEntry> {
    match entry {
        Some(e) => if e.value_type == TYPE_ATTRIBUTE && themed_entry(res, themes, theme, e.data)
            is Some {
            themed_entry(res, themes, theme, e.data)
        } else {
            entry
        },
        None => None,
    }
}

/// Resolves the references to attributes of the theme among the entries.
pub fn resolve_inline_theme_refs(
    res: &Resources,
    themes: &ThemeRegistry,
    theme: ThemeHandle,
    entries: &mut Vec<Option<TypedEntry>>,
)
    requires
        themes@.wf(),
    ensures
        final(entries)@.len() == old(entries)@.len(),
        forall|i: int|
            0 <= i < old(entries)@.len() ==> #[trigger] final(entries)@[i] == themed_reference(
                *res,
                themes@,
                theme,
                old(entries)@[i],
            ),
{
    let mut i: usize = 0;
    while i < entries.len()
        invariant
            i <= entries@.len(),
            entries@.len() == old(entries)@.len(),
            themes@.wf(),
            forall|j: int|
                0 <= j < i ==> #[trigger] entries@[j] == themed_reference(
                    *res,
                    themes@,
                    theme,
                    old(entries)@[j],
                ),
            forall|j: int| i <= j < entries@.len() ==> #[trigger] entries@[j] == old(entries)@[j],
        decreases entries@.len() - i,
    {
        let current: Option<TypedEntry> = entries[i];
        if let Some(entry) = current {
            if entry.value_type == TYPE_ATTRIBUTE as i32 {
                let resolved = match themes.get(theme) {
                    Ok(t) => resources::resolve_theme_attr(res, &t.attrs, entry.data),
                    Err(_) => None,
                };
                if resolved.is_some() {
                    entries[i] = resolved;
                }
            }
        }
        i += 1;
    }
}

/// The values of a `TypedArray` buffer after the entries were laid out in it:
/// seven cells for each, of which a present entry sets the first four and an
/// absent one the first. Every other cell keeps its value.
pub open spec fn laid_out(values: Seq<i32>, entries: Seq<Option<TypedEntry>>) -> Seq<i32> {
    Seq::new(
        values.len(),
        |k: int|
            {
                let attr = k / 7;
                let cell = k % 7;
                if attr < entries.len() {
                    match entries[attr] {
                        Some(e) => if cell == 0 {
                            e.value_type
                        } else if cell == 1 {
                            e.data
                        } else if cell == 2 {
                            e.asset_cookie
                        } else if cell == 3 {
                            e.resource_id
                        } else {
                            values[k]
                        },
                        None => if cell == 0 {
                            TYPE_NULL
                        } else {
                            values[k]
                        },
                    }
                } else {
                    values[k]
                }
            },
    )
}

/// The positions of the present entries among the first `n`, counted from one.
pub open spec fn found_positions(entries: Seq<Option<TypedEntry>>, n: nat) -> Seq<int>
    decreases n,
{
    if n == 0 {
        Seq::empty()
    } else if entries[n - 1] is Some {
        found_positions(entries, (n - 1) as nat).push(n as int)
    } else {
        found_positions(entries, (n - 1) as nat)
    }
}

/// The index buffer of a `TypedArray` after the entries were laid out: the number
/// of present entries, then their positions. The rest keeps its values.
pub open spec fn indexed(indices: Seq<i32>, entries: Seq<Option<TypedEntry>>) -> Seq<i32> {
    let found = found_positions(entries, entries.len());
    Seq::new(
        indices.len(),
        |k: int|
            if k == 0 {
                found.len() as i32
            } else if k <= found.len() {
                found[k - 1] as i32
            } else {
                indices[k]
            },
    )
}

proof fn lemma_found_positions(entries: Seq<Option<TypedEntry>>, n: nat)
    requires
        n <= entries.len(),
    ensures
        found_positions(entries, n).len() <= n,
        forall|k: int|
            0 <= k < found_positions(entries, n).len() ==> 1 <= #[trigger] found_positions(
                entries,
                n,
            )[k] <= n,
    decreases n,
{
    if n > 0 {
        lemma_found_positions(entries, (n - 1) as nat);
    }
}

/// Lays the entries out in a value buffer.
fn fill_values(values: &mut [i32], entries: &[Option<TypedEntry>])
    requires
        old(values)@.len() >= 7 * entries@.len(),
    ensures
        final(values)@ == laid_out(old(values)@, entries@),
{
    let ghost before = values@;
    let len: usize = values.len();
    let mut attr: usize = 0;
    assert(entries@.take(0) =~= Seq::<Option<TypedEntry>>::empty());
    assert(values@ =~= laid_out(before, entries@.take(0)));
    while attr < entries.len()
        invariant
            attr <= entries@.len(),
            values@.len() == before.len() == len,
            before.len() >= 7 * entries@.len(),
            values@ == laid_out(before, entries@.take(attr as int)),
        decreases entries@.len() - attr,
    {
        let window: usize = attr * STYLE_NUM_ENTRIES;
        let ghost mid = values@;
        match entries[attr] {
            Some(e) => {
                values[window + STYLE_TYPE] = e.value_type;
                values[window + STYLE_DATA] = e.data;
                values[window + STYLE_RESOURCE_ID] = e.resource_id;
                values[window + STYLE_ASSET_COOKIE] = e.asset_cookie;
            },
            None => {
                values[window + STYLE_TYPE] = TYPE_NULL;
            },
        }
        attr += 1;
        let ghost next = laid_out(before, entries@.take(attr as int));
        assert forall|k: int| 0 <= k < before.len() implies values@[k] == next[k] by {
            assert(mid[k] == laid_out(before, entries@.take(attr - 1))[k]);
            if k / 7 < attr - 1 {
                assert(entries@.take(attr as int)[k / 7] == entries@.take(attr - 1)[k / 7]);
                assert(k < window);
            } else if k / 7 == attr - 1 {
                assert(entries@.take(attr as int)[k / 7] == entries@[attr - 1]);
                assert(k == window + k % 7);
            } else {
                assert(k >= window + 7);
            }
        }
        assert(values@ =~= next);
    }
    assert(entries@.take(entries@.len() as int) =~= entries@);
}

/// Lays the positions of the present entries out in an index buffer.
fn fill_indices(indices: &mut [i32], entries: &[Option<TypedEntry>])
    requires
        old(indices)@.len() > entries@.len(),
        entries@.len() <= i32::MAX,
    ensures
        final(indices)@ == indexed(old(indices)@, entries@),
{
    let ghost before = indices@;
    let mut count: usize = 0;
    let mut attr: usize = 0;
    while attr < entries.len()
        invariant
            attr <= entries@.len(),
            entries@.len() <= i32::MAX,
            indices@.len() == before.len(),
            before.len() > entries@.len(),
            count == found_positions(entries@, attr as nat).len(),
            count <= attr,
            indices@[0] == before[0],
            forall|k: int|
                1 <= k <= count ==> #[trigger] indices@[k] == found_positions(
                    entries@,
                    attr as nat,
                )[k - 1],
            forall|k: int| count < k < before.len() ==> #[trigger] indices@[k] == before[k],
        decreases entries@.len() - attr,
    {
        if entries[attr].is_some() {
            count += 1;
            indices[count] = (attr + 1) as i32;
        }
        attr += 1;
    }
    proof {
        lemma_found_positions(entries@, entries@.len());
    }
    indices[0] = count as i32;
    assert(indices@ =~= indexed(before, entries@));
}

/// Lays the entries out in the buffers of a `TypedArray`, each where it has one.
pub fn fill_typed_array(
    out_values: Option<&mut [i32]>,
    out_indices: Option<&mut [i32]>,
    entries: &[Option<TypedEntry>],
)
    requires
        out_values is Some ==> out_values->0@.len() >= 7 * entries@.len(),
        out_indices is Some ==> out_indices->0@.len() > entries@.len(),
        entries@.len() <= i32::MAX,
    ensures
        out_values is Some ==> final(out_values->0)@ == laid_out(out_values->0@, entries@),
        out_indices is Some ==> final(out_indices->0)@ == indexed(out_indices->0@, entries@),
{
    if let Some(values) = out_values {
        fill_values(values, entries);
    }
    if let Some(indices) = out_indices {
        fill_indices(indices, entries);
    }
}

/// How many entries are present.
pub fn count_found(entries: &[Option<TypedEntry>]) -> (count: usize)
    ensures
        count == found_positions(entries@, entries@.len()).len(),
{
    let mut count: usize = 0;
    let mut i: usize = 0;
    while i < entries.len()
        invariant
            i <= entries@.len(),
            count == found_positions(entries@, i as nat).len(),
            count <= i,
        decreases entries@.len() - i,
    {
        if entries[i].is_some() {
            count += 1;
        }
        i += 1;
    }
    count
}

/// The value of an attribute of a styled element: what the element says counts,
/// with a reference to the theme resolved; where it says nothing, the theme does.
pub open spec fn styled_entry(
    res: Resources,
    element: Option<XmlElement>,
    themes: Slots<Theme>,
    theme: ThemeHandle,
    id: i32,
) -> Option<TypedEntry> {
    match xml_entry(res, element, id) {
        Some(e) => themed_reference(res, themes, theme, Some(e)),
        None => themed_entry(res, themes, theme, id),
    }
}

/// The values of the attributes of a styled element. The null parser stands for
/// no element.
pub fn apply_style(
    res: &Resources,
    themes: &ThemeRegistry,
    theme: ThemeHandle,
    blocks: &XmlRegistry,
    parser: XmlHandle,
    ids: &[i32],
) -> (entries: Vec<Option<TypedEntry>>)
    requires
        themes@.wf(),
        blocks@.wf(),
    ensures
        entries@.len() == ids@.len(),
        forall|i: int|
            0 <= i < ids@.len() ==> #[trigger] entries@[i] == styled_entry(
                *res,
                if parser != 0 {
                    element_at(blocks@, parser)
                } else {
                    None
                },
                themes@,
                theme,
                ids@[i],
            ),
{
    let ghost element = if parser != 0 {
        element_at(blocks@, parser)
    } else {
        None
    };
    let theme_entries = resolve_theme_attributes(res, themes, theme, ids);
    if parser == 0 {
        return theme_entries;
    }
    let mut entries = resolve_xml_attributes(res, blocks, parser, ids);
    let ghost plain = entries@;
    resolve_inline_theme_refs(res, themes, theme, &mut entries);
    assert forall|j: int| 0 <= j < ids@.len() implies #[trigger] entries@[j] == themed_reference(
        *res,
        themes@,
        theme,
        plain[j],
    ) && plain[j] == xml_entry(*res, element, ids@[j]) by {}
    let mut i: usize = 0;
    while i < entries.len()
        invariant
            i <= entries@.len(),
            entries@.len() == ids@.len(),
            theme_entries@.len() == ids@.len(),
            forall|j: int|
                0 <= j < ids@.len() ==> #[trigger] theme_entries@[j] == themed_entry(
                    *res,
                    themes@,
                    theme,
                    ids@[j],
                ),
            forall|j: int|
                0 <= j < i ==> #[trigger] entries@[j] == styled_entry(
                    *res,
                    element,
                    themes@,
                    theme,
                    ids@[j],
                ),
            forall|j: int|
                i <= j < ids@.len() ==> #[trigger] entries@[j] == themed_reference(
                    *res,
                    themes@,
                    theme,
                    xml_entry(*res, element, ids@[j]),
                ),
        decreases entries@.len() - i,
    {
        if entries[i].is_none() {
            entries[i] = theme_entries[i];
        }
        i += 1;
    }
    entries
}

proof fn lemma_attribute_for_is_nonzero(attributes: Seq<XmlAttribute>, id: u32)
    ensures
        attribute_for(attributes, id) is Some ==> id != 0,
    decreases attributes.len(),
{
    if attributes.len() > 0 {
        lemma_attribute_for_is_nonzero(attributes.skip(1), id);
    }
}

/// Attribute zero is never found in an element, though an attribute without
/// a resource id carries zero.
pub proof fn law_attribute_zero_never_matches(res: Resources, element: Option<XmlElement>)
    ensures
        xml_entry(res, element, 0) is None,
{
    if element is Some {
        lemma_attribute_for_is_nonzero(element->0.attributes@, 0);
    }
}

/// Laying out writes within the seven cells of each attribute and nowhere
/// past the last one.
pub proof fn law_layout_stays_within_its_windows(
    values: Seq<i32>,
    entries: Seq<Option<TypedEntry>>,
    k: int,
)
    requires
        0 <= k < values.len(),
        k >= 7 * entries.len() || k % 7 >= 4,
    ensures
        laid_out(values, entries)[k] == values[k],
{
}

/// Every present entry can be read back from its window, the cells in the
/// order in which `TypedArray` reads them.
pub proof fn law_present_entry_is_read_back(
    values: Seq<i32>,
    entries: Seq<Option<TypedEntry>>,
    attr: int,
)
    requires
        0 <= attr < entries.len(),
        values.len() >= 7 * entries.len(),
    ensures
        entries[attr] is Some ==> {
            let out = laid_out(values, entries);
            let e = entries[attr]->0;
            &&& out[7 * attr] == e.value_type
            &&& out[7 * attr + 1] == e.data
            &&& out[7 * attr + 2] == e.asset_cookie
            &&& out[7 * attr + 3] == e.resource_id
        },
        entries[attr] is None ==> {
            let out = laid_out(values, entries);
            &&& out[7 * attr] == TYPE_NULL
            &&& out[7 * attr] == 0
            &&& out[7 * attr + 1] == values[7 * attr + 1]
            &&& out[7 * attr + 2] == values[7 * attr + 2]
            &&& out[7 * attr + 3] == values[7 * attr + 3]
        },
        laid_out(values, entries).len() == values.len(),
{
}

proof fn lemma_attribute_for(attributes: Seq<XmlAttribute>, id: u32, k: int)
    requires
        id != 0,
        0 <= k <= attributes.len(),
        forall|j: int| 0 <= j < k ==> (#[trigger] attributes[j]).name_resource != id,
        k < attributes.len() ==> attributes[k].name_resource == id,
    ensures
        k < attributes.len() ==> attribute_for(attributes, id) == Some(attributes[k]),
        k == attributes.len() ==> attribute_for(attributes, id) is None,
    decreases attributes.len(),
{
    if k > 0 {
        let rest = attributes.skip(1);
        assert(attributes[0].name_resource != id);
        assert forall|j: int| 0 <= j < k - 1 implies (#[trigger] rest[j]).name_resource != id by {
            assert(rest[j] == attributes[j + 1]);
        }
        if k < attributes.len() {
            assert(rest[k - 1] == attributes[k]);
        }
        lemma_attribute_for(rest, id, k - 1);
    }
}

/// An element gives an attribute the value of the first of its own attributes with
/// that resource id, and none where it has no such attribute.
pub proof fn law_first_attribute_of_the_id_counts(
    res: Resources,
    element: XmlElement,
    id: i32,
    k: int,
)
    requires
        id != 0,
        0 <= k <= element.attributes@.len(),
        forall|j: int|
            0 <= j < k ==> (#[trigger] element.attributes@[j]).name_resource
                != resources::unsigned(id),
        k < element.attributes@.len() ==> element.attributes@[k].name_resource
            == resources::unsigned(id),
    ensures
        k < element.attributes@.len() ==> xml_entry(res, Some(element), id) == Some(
            resources::inline_entry(
                res,
                element.attributes@[k].value_type,
                element.attributes@[k].value_data,
            ),
        ),
        k == element.attributes@.len() ==> xml_entry(res, Some(element), id) is None,
        xml_entry(res, None, id) is None,
{
    lemma_attribute_for(element.attributes@, resources::unsigned(id), k);
}

/// Only a handle that names a block has an element, and only one that names a theme
/// has values: those of its own block and of its own theme.
pub proof fn law_handles_name_what_is_read(
    res: Resources,
    blocks: Slots<XmlBlock>,
    state: XmlHandle,
    themes: Slots<Theme>,
    theme: ThemeHandle,
    id: i32,
)
    ensures
        blocks.live(state) ==> element_at(blocks, state) == blocks.value(state).element(),
        !blocks.live(state) ==> element_at(blocks, state) is None,
        themes.live(theme) ==> themed_entry(res, themes, theme, id) == resources::theme_entry(
            res,
            themes.value(theme).attrs@,
            id,
        ),
        !themes.live(theme) ==> themed_entry(res, themes, theme, id) is None,
{
}

/// A styled element has the value that it says itself. A reference to an attribute of
/// the theme gives what the theme says of that attribute, and stays where the theme
/// says nothing. What the element does not say, the theme does.
pub proof fn law_element_speaks_before_the_theme(
    res: Resources,
    element: Option<XmlElement>,
    themes: Slots<Theme>,
    theme: ThemeHandle,
    id: i32,
    said: TypedEntry,
    referred: TypedEntry,
)
    ensures
        xml_entry(res, element, id) == Some(said) && said.value_type != 2 ==> styled_entry(
            res,
            element,
            themes,
            theme,
            id,
        ) == Some(said),
        xml_entry(res, element, id) == Some(said) && said.value_type == 2 && themed_entry(
            res,
            themes,
            theme,
            said.data,
        ) == Some(referred) ==> styled_entry(res, element, themes, theme, id) == Some(referred),
        xml_entry(res, element, id) == Some(said) && said.value_type == 2 && themed_entry(
            res,
            themes,
            theme,
            said.data,
        ) is None ==> styled_entry(res, element, themes, theme, id) == Some(said),
        xml_entry(res, element, id) is None ==> styled_entry(res, element, themes, theme, id)
            == themed_entry(res, themes, theme, id),
{
}

/// References to attributes of the theme, and nothing else, are replaced by what the
/// theme says of them.
pub proof fn law_only_references_are_replaced(
    res: Resources,
    themes: Slots<Theme>,
    theme: ThemeHandle,
    entry: TypedEntry,
)
    ensures
        themed_reference(res, themes, theme, None) is None,
        entry.value_type != 2 ==> themed_reference(res, themes, theme, Some(entry)) == Some(entry),
        entry.value_type == 2 ==> themed_reference(res, themes, theme, Some(entry)) == (
        match themed_entry(res, themes, theme, entry.data) {
            Some(t) => Some(t),
            None => Some(entry),
        }),
{
}

proof fn lemma_positions_of_longer(
    entries: Seq<Option<TypedEntry>>,
    e: Option<TypedEntry>,
    n: nat,
)
    requires
        n <= entries.len(),
    ensures
        found_positions(entries.push(e), n) == found_positions(entries, n),
    decreases n,
{
    if n > 0 {
        lemma_positions_of_longer(entries, e, (n - 1) as nat);
        assert(entries.push(e)[n - 1] == entries[n - 1]);
    }
}

/// A present entry behind others adds its position to theirs, an absent one adds
/// nothing; no entries have no positions.
pub proof fn law_found_are_counted_in_order(
    entries: Seq<Option<TypedEntry>>,
    e: Option<TypedEntry>,
)
    ensures
        found_positions(Seq::<Option<TypedEntry>>::empty(), 0).len() == 0,
        e is None ==> found_positions(entries.push(e), entries.len() + 1) == found_positions(
            entries,
            entries.len(),
        ),
        e is Some ==> found_positions(entries.push(e), entries.len() + 1) == found_positions(
            entries,
            entries.len(),
        ).push(entries.len() as int + 1),
{
    lemma_positions_of_longer(entries, e, entries.len());
    assert(entries.push(e)[entries.len() as int] == e);
}

/// An index buffer begins with the number of the present entries, their positions
/// follow in order, and the rest of it stays as it was.
pub proof fn law_indices_list_the_found(
    indices: Seq<i32>,
    entries: Seq<Option<TypedEntry>>,
    k: int,
)
    requires
        entries.len() < indices.len(),
        entries.len() <= 0x7FFF_FFFF,
        0 < k < indices.len(),
    ensures
        indexed(indices, entries).len() == indices.len(),
        indexed(indices, entries)[0] == found_positions(entries, entries.len()).len(),
        k <= found_positions(entries, entries.len()).len() ==> indexed(indices, entries)[k]
            == found_positions(entries, entries.len())[k - 1],
        k > found_positions(entries, entries.len()).len() ==> indexed(indices, entries)[k]
            == indices[k],
{
    lemma_found_positions(entries, entries.len());
    if k <= found_positions(entries, entries.len()).len() {
        assert(1 <= found_positions(entries, entries.len())[k - 1] <= entries.len());
    }
}

} // verus!
