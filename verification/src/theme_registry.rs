//! Themes, each a set of attribute values merged from styles, behind handles.

use std::collections::HashMap;
use vstd::prelude::*;

use crate::slots::{SlotError, SlotTable};

verus! {

broadcast use vstd::std_specs::hash::group_hash_axioms;

/// A handle to a theme. Zero is never the handle of one.
pub type ThemeHandle = i64;

/// Every theme.
pub type ThemeRegistry = SlotTable<Theme>;

/// The value that a theme gives to an attribute, and the package of the resource
/// table that it was taken from.
#[derive(Debug, Clone, Copy, PartialEq, Eq, Structural)]
pub struct ThemeAttr {
    pub type_: u8,
    pub data: u32,
    pub source_package: u8,
}

/// A theme: the styles that were applied to it, and the attribute values that
/// they gave it.
pub struct Theme {
    pub styles: Vec<i32>,
    pub attrs: HashMap<i32, ThemeAttr>,
}

impl Theme {
    /// A theme that nothing was applied to.
    pub fn new() -> (theme: Self)
        ensures
            theme.styles@ == Seq::<i32>::empty(),
            theme.attrs@ == Map::<i32, ThemeAttr>::empty(),
    {
        Theme { styles: Vec::new(), attrs: HashMap::new() }
    }
}

/// Makes an empty theme and returns its handle. The only failure is that no index
/// is left.
pub fn allocate(registry: &mut ThemeRegistry) -> (result: Result<ThemeHandle, SlotError>)
    requires
        old(registry)@.wf(),
    ensures
        final(registry)@.wf(),
        old(registry)@.has_room() ==> result == Ok::<ThemeHandle, SlotError>(
            old(registry)@.next_handle(),
        ) && exists|theme: Theme|
            theme.styles@ == Seq::<i32>::empty() && theme.attrs@ == Map::<
                i32,
                ThemeAttr,
            >::empty() && #[trigger] old(registry)@.stored(theme) == final(registry)@,
        !old(registry)@.has_room() ==> result == Err::<ThemeHandle, SlotError>(
            SlotError::OutOfRange,
        ) && final(registry)@ == old(registry)@,
{
    registry.store(Theme::new())
}

/// The handle of a new theme, zero where none could be made.
pub fn new_theme(registry: &mut ThemeRegistry) -> (handle: ThemeHandle)
    requires
        old(registry)@.wf(),
    ensures
        final(registry)@.wf(),
        old(registry)@.has_room() ==> handle == old(registry)@.next_handle() && exists|theme: Theme|
            theme.styles@ == Seq::<i32>::empty() && theme.attrs@ == Map::<
                i32,
                ThemeAttr,
            >::empty() && #[trigger] old(registry)@.stored(theme) == final(registry)@,
        !old(registry)@.has_room() ==> handle == 0 && final(registry)@ == old(registry)@,
{
    match allocate(registry) {
        Ok(handle) => handle,
        Err(_) => 0,
    }
}

/// Gives the theme `dest` the styles and the attribute values of `source`.
/// Nothing happens where either handle names no theme.
pub fn copy_theme(registry: &mut ThemeRegistry, dest: ThemeHandle, source: ThemeHandle)
    requires
        old(registry)@.wf(),
    ensures
        final(registry)@.wf(),
        !(old(registry)@.live(dest) && old(registry)@.live(source)) ==> final(registry)@
            == old(registry)@,
        old(registry)@.live(dest) && old(registry)@.live(source) ==> {
            let copied = final(registry)@.value(dest);
            &&& final(registry)@ == old(registry)@.updated(dest, copied)
            &&& copied.styles@ == old(registry)@.value(source).styles@
            &&& copied.attrs@ == old(registry)@.value(source).attrs@
        },
{
    let (styles, attrs) = match registry.get(source) {
        Ok(theme) => (theme.styles.clone(), theme.attrs.clone()),
        Err(_) => {
            return;
        },
    };
    let ghost before = registry@;
    match registry.get_mut(dest) {
        Ok(theme) => {
            proof {
                crate::slots::law_updated_value_is_read_back(before, dest, *final(theme));
            }
            theme.styles = styles;
            theme.attrs = attrs;
        },
        Err(_) => {},
    }
}

} // verus!
