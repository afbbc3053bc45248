//! Resource names, and resource and theme values as `TypedValue` takes them.

use vstd::prelude::*;

use crate::resources;
use crate::resources::{Resources, TypedEntry, ARSC_FRAMEWORK_COOKIE, TYPE_STRING};
use crate::theme_registry::{Theme, ThemeHandle, ThemeRegistry};

verus! {

broadcast use vstd::std_specs::hash::group_hash_axioms;

/// The type of a resource id: its second highest byte.
pub open spec fn type_of(resid: u32) -> u8 {
    (resid / 0x1_0000 % 0x100) as u8
}

/// The type of a resource id.
pub fn type_id(resid: u32) -> (t: u8)
    ensures
        t == type_of(resid),
        t == resid / 0x1_0000 % 0x100,
{
    assert((((resid >> 16u32) & 0xffu32) as u8) == resid / 0x1_0000 % 0x100) by (bit_vector);
    ((resid >> 16u32) & 0xffu32) as u8
}

/// The name of the package that a resource belongs to.
pub open spec fn package_name(res: Resources, resid: u32) -> Option<Seq<char>> {
    match res.table_of(resid) {
        Some(table) => {
            let package = resources::package_of(resid);
            if table.packages@.contains_key(package) {
                resources::optional_text(table.packages@[package].name)
            } else {
                None
            }
        },
        None => None,
    }
}

/// The name of a resource, `package:type/entry`, without the package where it has
/// no name. None where the resource is in no table, or its type or entry has no
/// name.
pub open spec fn resource_name(res: Resources, resid: u32) -> Option<Seq<char>> {
    let package = resources::package_of(resid);
    match res.table_of(resid) {
        Some(table) => if table.values@.contains_key(resid) && table.packages@.contains_key(
            package,
        ) {
            let names = table.packages@[package];
            let key = table.values@[resid].key_index;
            if 1 <= type_of(resid) <= names.types@.len() && key < names.keys@.len() {
                let local = names.types@[type_of(resid) - 1]@ + "/"@ + names.keys@[key as int]@;
                match names.name {
                    Some(name) => Some(name@ + ":"@ + local),
                    None => Some(local),
                }
            } else {
                None
            }
        } else {
            None
        },
        None => None,
    }
}

/// The name of the package that a resource belongs to.
pub fn resolve_resource_package_name(res: &Resources, resid: u32) -> (name: Option<String>)
    ensures
        resources::optional_text(name) == package_name(*res, resid),
{
    match res.arsc_table_for(resid) {
        Some(table) => match table.packages.get(&resources::package_id(resid)) {
            Some(names) => match &names.name {
                Some(name) => Some(name.clone()),
                None => None,
            },
            None => None,
        },
        None => None,
    }
}

/// The name of a resource.
pub fn resolve_resource_name(res: &Resources, resid: u32) -> (name: Option<String>)
    ensures
        resources::optional_text(name) == resource_name(*res, resid),
{
    let table = match res.arsc_table_for(resid) {
        Some(table) => table,
        None => {
            return None;
        },
    };
    let key: u32 = match table.values.get(&resid) {
        Some(entry) => entry.key_index,
        None => {
            return None;
        },
    };
    let names = match table.packages.get(&resources::package_id(resid)) {
        Some(names) => names,
        None => {
            return None;
        },
    };
    let kind: u8 = type_id(resid);
    if kind == 0 || kind as usize > names.types.len() || key as usize >= names.keys.len() {
        return None;
    }
    let mut full = match &names.name {
        Some(name) => name.clone().concat(":"),
        None => String::new(),
    };
    let ghost head = full@;
    full.append(names.types[kind as usize - 1].as_str());
    full.append("/");
    full.append(names.keys[key as usize].as_str());
    proof {
        let local = names.types@[kind - 1]@ + "/"@ + names.keys@[key as int]@;
        assert(full@ =~= head + local);
        if names.name is None {
            assert(full@ =~= local);
        }
    }
    Some(full)
}

/// What `loadResourceValue` writes into a `TypedValue`.
#[derive(Debug)]
pub struct LoadedValue {
    pub type_: i32,
    pub data: i32,
    pub asset_cookie: i32,
    pub resource_id: i32,
    pub density: i32,
    pub string: Option<String>,
}

/// What `loadResourceValue` writes for a resource, nothing where it has no simple
/// value.
pub fn load_resource_value(res: &Resources, resid: i32, density: i16) -> (value: Option<
    LoadedValue,
>)
    ensures
        ({
            let id = resources::unsigned(resid);
            let cookie = resources::package_cookie(resources::package_of(id));
            match res.value_of(id) {
                Some((type_, data)) => {
                    &&& value is Some
                    &&& value->0.type_ == type_
                    &&& value->0.data == resources::signed(data)
                    &&& value->0.asset_cookie == cookie
                    &&& value->0.resource_id == resid
                    &&& value->0.density == density
                    &&& resources::optional_text(value->0.string) == (if type_ == TYPE_STRING {
                        res.pool_string(cookie, data)
                    } else {
                        None
                    })
                },
                None => value is None,
            }
        }),
        value is Some && value->0.type_ != 3 ==> value->0.string is None,
        value is Some && value->0.type_ == 3 ==> resources::optional_text(value->0.string)
            == res.pool_string(value->0.asset_cookie, resources::unsigned(value->0.data)),
{
    let id: u32 = resources::i32_to_u32(resid);
    match resources::resolve_res_value(res, id) {
        Some(resolved) => Some(
            LoadedValue {
                type_: resolved.type_,
                data: resolved.data,
                asset_cookie: resources::arsc_cookie_for(id),
                resource_id: resid,
                density: density as i32,
                string: resolved.string,
            },
        ),
        None => None,
    }
}

/// The value of an attribute in a theme, with its string where it is one and the
/// pool has it.
#[derive(Debug)]
pub struct ThemeValue {
    pub entry: TypedEntry,
    pub string: Option<String>,
}

/// What `loadThemeAttributeValue` writes for an attribute of a theme, nothing
/// where the handle names no theme or the theme gives the attribute no value.
pub fn load_theme_attribute_value(
    res: &Resources,
    themes: &ThemeRegistry,
    theme: ThemeHandle,
    ident: i32,
) -> (value: Option<ThemeValue>)
    requires
        themes@.wf(),
    ensures
        match crate::typed_array::themed_entry(*res, themes@, theme, ident) {
            Some(entry) => {
                &&& value is Some
                &&& value->0.entry == entry
                &&& resources::optional_text(value->0.string) == (if entry.value_type
                    == TYPE_STRING {
                    res.pool_string(entry.asset_cookie, resources::unsigned(entry.data))
                } else {
                    None
                })
            },
            None => value is None,
        },
        value is Some && value->0.entry.value_type != 3 ==> value->0.string is None,
        value is Some && value->0.entry.value_type == 3 ==> resources::optional_text(
            value->0.string,
        ) == res.pool_string(value->0.entry.asset_cookie, resources::unsigned(value->0.entry.data)),
{
    let entry: TypedEntry = match themes.get(theme) {
        Ok(t) => match resources::resolve_theme_attr(res, &t.attrs, ident) {
            Some(entry) => entry,
            None => {
                return None;
            },
        },
        Err(_) => {
            return None;
        },
    };
    let string = if entry.value_type == TYPE_STRING as i32 {
        resources::arsc_pool_string(res, entry.asset_cookie, resources::i32_to_u32(entry.data))
    } else {
        None
    };
    Some(ThemeValue { entry, string })
}

/// Whether an XML asset comes from the framework's archive, by its cookie.
pub fn xml_from_framework(cookie: i32) -> (b: bool)
    ensures
        b == (cookie == 2),
{
    cookie == ARSC_FRAMEWORK_COOKIE
}

/// A resource is named by the table of its package: the name of the package and a
/// colon where the package has a name, then the name of its type, a slash and the
/// name of its entry. Types are counted from one, entries from zero.
pub proof fn law_resource_is_named_by_its_table(
    res: Resources,
    package: u8,
    kind: u8,
    rest: u32,
    table: resources::ResourceTable,
)
    requires
        rest < 0x1_0000,
        res.table_of((package * 0x100_0000 + kind * 0x1_0000 + rest) as u32) == Some(table),
    ensures
        ({
            let id = (package * 0x100_0000 + kind * 0x1_0000 + rest) as u32;
            &&& !table.packages@.contains_key(package) ==> package_name(res, id) is None
                && resource_name(res, id) is None
            &&& table.packages@.contains_key(package) ==> {
                let names = table.packages@[package];
                let key = table.values@[id].key_index;
                &&& package_name(res, id) == (match names.name {
                    Some(name) => Some(name@),
                    None => None,
                })
                &&& (resource_name(res, id) is Some) == (table.values@.contains_key(id) && kind
                    >= 1 && kind <= names.types@.len() && key < names.keys@.len())
                &&& resource_name(res, id) is Some ==> resource_name(res, id)->0 == (
                match names.name {
                    Some(name) => name@ + ":"@,
                    None => Seq::<char>::empty(),
                }) + (names.types@[kind - 1]@ + "/"@ + names.keys@[key as int]@)
            }
        }),
{
    let id = (package * 0x100_0000 + kind * 0x1_0000 + rest) as u32;
    assert(id / 0x100_0000 == package);
    assert(id / 0x1_0000 == package * 0x100 + kind);
    assert(id / 0x1_0000 % 0x100 == kind);
    assert(resources::package_of(id) == package);
    assert(type_of(id) == kind);
    if table.packages@.contains_key(package) && resource_name(res, id) is Some {
        let names = table.packages@[package];
        let key = table.values@[id].key_index;
        let local = names.types@[kind - 1]@ + "/"@ + names.keys@[key as int]@;
        assert(Seq::<char>::empty() + local =~= local);
    }
}

/// A resource of a package without a table has no name.
pub proof fn law_resource_without_a_table_has_no_name(res: Resources, resid: u32)
    requires
        res.table_of(resid) is None,
    ensures
        package_name(res, resid) is None,
        resource_name(res, resid) is None,
{
}

} // verus!
