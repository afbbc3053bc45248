//! Resource values: looking them up, following references between them, merging
//! styles into themes, and laying the results out for `TypedArray`.

use std::collections::HashMap;
use vstd::prelude::*;

use crate::theme_registry::ThemeAttr;

verus! {

broadcast use vstd::std_specs::hash::group_hash_axioms;

/// The type of a string value in a resource table.
pub const RES_VALUE_TYPE_STRING: u8 = 0x03;

/// The cookie that a loaded value is reported with.
pub const ECLIPSE_ASSET_COOKIE: i32 = 1;

/// The number of cells that `TypedArray` keeps for one attribute.
pub const STYLE_NUM_ENTRIES: usize = 7;

/// The cell of the value's type.
pub const STYLE_TYPE: usize = 0;

/// The cell of the value's data.
pub const STYLE_DATA: usize = 1;

/// The cell of the cookie of the string pool that the data indexes.
pub const STYLE_ASSET_COOKIE: usize = 2;

/// The cell of the resource that the value was referred to by.
pub const STYLE_RESOURCE_ID: usize = 3;

/// The cookie of the string pool of the XML block at hand.
pub const XML_BLOCK_COOKIE: i32 = -1;

/// The type of an absent value.
pub const TYPE_NULL: i32 = 0;

/// The type of a reference to a resource.
pub const TYPE_REFERENCE: u8 = 0x01;

/// The type of a reference to an attribute of the theme.
pub const TYPE_ATTRIBUTE: u8 = 0x02;

/// The type of an index into a string pool.
pub const TYPE_STRING: u8 = 0x03;

/// The cookie of the application's resource table.
pub const ARSC_APP_COOKIE: i32 = 1;

/// The cookie of the framework's resource table.
pub const ARSC_FRAMEWORK_COOKIE: i32 = 2;

/// How many references are followed at most.
pub const MAX_ATTR_RESOLVE_DEPTH: usize = 16;

/// How many ancestors of a style are visited at most.
pub const MAX_THEME_PARENT_DEPTH: usize = 64;

/// The package of the framework's resources.
pub const FRAMEWORK_PACKAGE: u8 = 0x01;

/// The package that a resource id belongs to: its highest byte.
pub open spec fn package_of(resid: u32) -> u8 {
    (resid / 0x100_0000) as u8
}

/// The package that a resource id belongs to.
pub fn package_id(resid: u32) -> (package: u8)
    ensures
        package == package_of(resid),
        package * 0x100_0000 <= resid < (package + 1) * 0x100_0000,
{
    assert(((resid >> 24u32) as u8) == resid / 0x100_0000) by (bit_vector);
    (resid >> 24u32) as u8
}

/// The cookie of the resource table that holds a package.
pub open spec fn package_cookie(package: u8) -> i32 {
    if package == FRAMEWORK_PACKAGE {
        ARSC_FRAMEWORK_COOKIE
    } else {
        ARSC_APP_COOKIE
    }
}

/// The cookie of the resource table that holds a resource.
pub fn arsc_cookie_for(resid: u32) -> (cookie: i32)
    ensures
        cookie == package_cookie(package_of(resid)),
        cookie == (if 0x100_0000 <= resid < 0x200_0000 { 2i32 } else { 1i32 }),
{
    arsc_cookie_for_package(package_id(resid))
}

/// The cookie of the resource table that holds a package.
pub fn arsc_cookie_for_package(package_id: u8) -> (cookie: i32)
    ensures
        cookie == package_cookie(package_id),
        cookie == (if package_id == 1 { 2i32 } else { 1i32 }),
{
    if package_id == FRAMEWORK_PACKAGE {
        ARSC_FRAMEWORK_COOKIE
    } else {
        ARSC_APP_COOKIE
    }
}

/// The signed value with the bits of an unsigned one.
pub open spec fn signed(v: u32) -> i32 {
    if v <= i32::MAX {
        v as i32
    } else {
        (v - 0x1_0000_0000) as i32
    }
}

/// The unsigned value with the bits of a signed one.
pub open spec fn unsigned(v: i32) -> u32 {
    if v >= 0 {
        v as u32
    } else {
        (v + 0x1_0000_0000) as u32
    }
}

/// The signed value with the bits of `v`.
pub fn u32_to_i32(v: u32) -> (r: i32)
    ensures
        r == signed(v),
        unsigned(r) == v,
        r == v || r == v - 0x1_0000_0000,
{
    assert(v <= 0x7fff_ffff ==> (v as i32) == v) by (bit_vector);
    assert(v > 0x7fff_ffff ==> (v as i32) == v - 0x1_0000_0000) by (bit_vector);
    v as i32
}

/// The unsigned value with the bits of `v`.
pub fn i32_to_u32(v: i32) -> (r: u32)
    ensures
        r == unsigned(v),
        signed(r) == v,
        r == v || r == v + 0x1_0000_0000,
{
    assert(v >= 0 ==> (v as u32) == v) by (bit_vector);
    assert(v < 0 ==> (v as u32) == v + 0x1_0000_0000) by (bit_vector);
    v as u32
}

/// No bit is lost between a resource id and the signed number that stands
/// for it in Java.
pub proof fn law_ids_keep_their_bits(v: u32, s: i32)
    ensures
        unsigned(signed(v)) == v,
        signed(unsigned(s)) == s,
        signed(v) == v || signed(v) == v - 0x1_0000_0000,
        unsigned(s) == s || unsigned(s) == s + 0x1_0000_0000,
{
}

/// A resource in a table. The data of a complex one is not a value.
#[derive(Debug, Clone, Copy, PartialEq, Eq, Structural)]
pub struct ResourceEntry {
    pub type_: u8,
    pub data: u32,
    pub is_complex: bool,
    /// The index of the entry's name among the keys of its package.
    pub key_index: u32,
}

/// One attribute value of a style.
#[derive(Debug, Clone, Copy, PartialEq, Eq, Structural)]
pub struct StyleEntry {
    pub attr_id: u32,
    pub type_: u8,
    pub data: u32,
}

/// A style: its parent, zero where it has none, and its attribute values.
#[derive(Debug)]
pub struct Style {
    pub parent_id: u32,
    pub entries: Vec<StyleEntry>,
}

/// The names in one package of a table.
#[derive(Debug)]
pub struct PackageNames {
    pub name: Option<String>,
    /// The names of the resource types, the type with identifier one first.
    pub types: Vec<String>,
    pub keys: Vec<String>,
}

/// A resource with its names.
#[derive(Debug)]
pub struct NamedResource {
    pub package: String,
    pub kind: String,
    pub entry: String,
    pub id: u32,
}

/// A resource table.
pub struct ResourceTable {
    pub values: HashMap<u32, ResourceEntry>,
    pub styles: HashMap<u32, Style>,
    /// The string pool of the values.
    pub strings: Vec<String>,
    pub packages: HashMap<u8, PackageNames>,
    pub names: Vec<NamedResource>,
}

/// The resource tables of the application and of the framework, each where it
/// could be loaded.
pub struct Resources {
    pub app: Option<ResourceTable>,
    pub framework: Option<ResourceTable>,
}

/// A resource value as it is written into a `TypedValue`.
#[derive(Debug)]
pub struct ResolvedResValue {
    pub type_: i32,
    pub data: i32,
    pub string: Option<String>,
}

impl Resources {
    /// The table that holds a resource: the framework's for the framework's
    /// package, the application's for every other one.
    pub open spec fn table_of(self, resid: u32) -> Option<ResourceTable> {
        if package_of(resid) == FRAMEWORK_PACKAGE {
            self.framework
        } else {
            self.app
        }
    }

    /// The type and the data of a resource that has a simple value.
    pub open spec fn value_of(self, resid: u32) -> Option<(u8, u32)> {
        match self.table_of(resid) {
            Some(table) => if table.values@.contains_key(resid)
                && !table.values@[resid].is_complex {
                Some((table.values@[resid].type_, table.values@[resid].data))
            } else {
                None
            },
            None => None,
        }
    }

    /// The style with an id.
    pub open spec fn style_of(self, id: u32) -> Option<Style> {
        match self.table_of(id) {
            Some(table) => if table.styles@.contains_key(id) {
                Some(table.styles@[id])
            } else {
                None
            },
            None => None,
        }
    }

    /// The table that holds a resource.
    pub fn arsc_table_for(&self, resid: u32) -> (table: Option<&ResourceTable>)
        ensures
            match table {
                Some(t) => self.table_of(resid) == Some(*t),
                None => self.table_of(resid) is None,
            },
            0x100_0000 <= resid < 0x200_0000 ==> match table {
                Some(t) => self.framework == Some(*t),
                None => self.framework is None,
            },
            !(0x100_0000 <= resid < 0x200_0000) ==> match table {
                Some(t) => self.app == Some(*t),
                None => self.app is None,
            },
    {
        if package_id(resid) == FRAMEWORK_PACKAGE {
            self.framework.as_ref()
        } else {
            self.app.as_ref()
        }
    }

    /// A string of the pool that a cookie names: none where the cookie is
    /// neither table's, the table is not there or the index is past the pool.
    pub open spec fn pool_string(self, cookie: i32, index: u32) -> Option<Seq<char>> {
        let table = if cookie == ARSC_FRAMEWORK_COOKIE {
            self.framework
        } else if cookie == ARSC_APP_COOKIE {
            self.app
        } else {
            None
        };
        match table {
            Some(t) => if index < t.strings@.len() {
                Some(t.strings@[index as int]@)
            } else {
                None
            },
            None => None,
        }
    }
}

/// What an optional string holds.
pub open spec fn optional_text(s: Option<String>) -> Option<Seq<char>> {
    match s {
        Some(s) => Some(s@),
        None => None,
    }
}

/// A string of the pool that a cookie names.
pub fn arsc_pool_string(resources: &Resources, cookie: i32, index: u32) -> (string: Option<String>)
    ensures
        optional_text(string) == resources.pool_string(cookie, index),
        cookie == 2 ==> (string is Some) == (resources.framework is Some && index
            < resources.framework->0.strings@.len()),
        cookie == 1 ==> (string is Some) == (resources.app is Some && index
            < resources.app->0.strings@.len()),
        cookie != 1 && cookie != 2 ==> string is None,
        string is Some && cookie == 2 ==> string->0@
            == resources.framework->0.strings@[index as int]@,
        string is Some && cookie == 1 ==> string->0@ == resources.app->0.strings@[index as int]@,
{
    let table = match cookie {
        ARSC_FRAMEWORK_COOKIE => resources.framework.as_ref(),
        ARSC_APP_COOKIE => resources.app.as_ref(),
        _ => None,
    };
    match table {
        Some(t) => {
            if (index as usize) < t.strings.len() {
                Some(t.strings[index as usize].clone())
            } else {
                None
            }
        },
        None => None,
    }
}

/// The value of a resource: none where it is in no table or is complex. A string
/// value comes with its string, where the pool has it.
pub fn resolve_res_value(resources: &Resources, resid: u32) -> (value: Option<ResolvedResValue>)
    ensures
        (value is Some) == (resources.value_of(resid) is Some),
        value is Some ==> {
            let v = resources.value_of(resid)->0;
            &&& value->0.type_ == v.0
            &&& value->0.data == signed(v.1)
            &&& optional_text(value->0.string) == (if v.0 == RES_VALUE_TYPE_STRING {
                resources.pool_string(package_cookie(package_of(resid)), v.1)
            } else {
                None
            })
        },
{
    let table = match resources.arsc_table_for(resid) {
        Some(table) => table,
        None => {
            return None;
        },
    };
    let entry: ResourceEntry = match table.values.get(&resid) {
        Some(entry) => *entry,
        None => {
            return None;
        },
    };
    if entry.is_complex {
        return None;
    }
    let string = if entry.type_ == RES_VALUE_TYPE_STRING && (entry.data as usize)
        < table.strings.len() {
        Some(table.strings[entry.data as usize].clone())
    } else {
        None
    };
    Some(ResolvedResValue { type_: entry.type_ as i32, data: u32_to_i32(entry.data), string })
}

/// The simple value of a resource, without its string.
fn simple_value(resources: &Resources, resid: u32) -> (value: Option<(u8, u32)>)
    ensures
        value == resources.value_of(resid),
{
    match resources.arsc_table_for(resid) {
        Some(table) => match table.values.get(&resid) {
            Some(entry) => if entry.is_complex {
                None
            } else {
                Some((entry.type_, entry.data))
            },
            None => None,
        },
        None => None,
    }
}

/// An attribute value as `TypedArray` reads it.
#[derive(Debug, Clone, Copy, PartialEq, Eq, Structural)]
pub struct TypedEntry {
    pub value_type: i32,
    pub data: i32,
    pub resource_id: i32,
    pub asset_cookie: i32,
}

/// Where following references from a value ends: the last type and data, and the
/// cookie of the table that they come from. A null reference is not followed, nor
/// one to a resource without a simple value, nor more than `fuel` of them.
pub open spec fn followed(
    resources: Resources,
    type_: u8,
    data: u32,
    cookie: i32,
    fuel: nat,
) -> (u8, u32, i32)
    decreases fuel,
{
    if fuel == 0 || type_ != TYPE_REFERENCE || data == 0 {
        (type_, data, cookie)
    } else {
        match resources.value_of(data) {
            Some(v) => followed(
                resources,
                v.0,
                v.1,
                package_cookie(package_of(data)),
                (fuel - 1) as nat,
            ),
            None => (type_, data, cookie),
        }
    }
}

/// The value of an attribute that is written in an XML element.
pub open spec fn inline_entry(resources: Resources, value_type: u8, value_data: u32) -> TypedEntry {
    let end = followed(
        resources,
        value_type,
        value_data,
        XML_BLOCK_COOKIE,
        MAX_ATTR_RESOLVE_DEPTH as nat,
    );
    TypedEntry {
        value_type: end.0 as i32,
        data: signed(end.1),
        resource_id: if value_type == TYPE_REFERENCE || value_type == TYPE_ATTRIBUTE {
            signed(value_data)
        } else {
            0
        },
        asset_cookie: if end.0 == TYPE_STRING {
            end.2
        } else {
            0
        },
    }
}

/// The value of an attribute that is written in an XML element: references are
/// followed, and the resource or attribute that it names is kept.
pub fn resolve_inline_attr_value(resources: &Resources, value_type: u8, value_data: u32) -> (entry:
    TypedEntry)
    ensures
        entry == inline_entry(*resources, value_type, value_data),
{
    let mut cur_type: u8 = value_type;
    let mut cur_data: u32 = value_data;
    let resource_id: i32 = if value_type == TYPE_REFERENCE || value_type == TYPE_ATTRIBUTE {
        u32_to_i32(value_data)
    } else {
        0
    };
    let mut string_pool_cookie: i32 = XML_BLOCK_COOKIE;
    let ghost end = followed(
        *resources,
        value_type,
        value_data,
        XML_BLOCK_COOKIE,
        MAX_ATTR_RESOLVE_DEPTH as nat,
    );
    let mut left: usize = MAX_ATTR_RESOLVE_DEPTH;
    while left > 0
        invariant_except_break
            followed(*resources, cur_type, cur_data, string_pool_cookie, left as nat) == end,
        ensures
            (cur_type, cur_data, string_pool_cookie) == end,
        decreases left,
    {
        if cur_type != TYPE_REFERENCE || cur_data == 0 {
            break;
        }
        match simple_value(resources, cur_data) {
            Some(v) => {
                string_pool_cookie = arsc_cookie_for(cur_data);
                cur_type = v.0;
                cur_data = v.1;
            },
            None => {
                break;
            },
        }
        left -= 1;
    }
    let asset_cookie: i32 = if cur_type == TYPE_STRING {
        string_pool_cookie
    } else {
        0
    };
    TypedEntry {
        value_type: cur_type as i32,
        data: u32_to_i32(cur_data),
        resource_id,
        asset_cookie,
    }
}

/// Where following a theme value ends: the last value, the last resource that it
/// was referred to by, and the cookie of the table that it comes from. An
/// attribute that the theme lacks ends in nothing.
pub open spec fn theme_followed(
    resources: Resources,
    attrs: Map<i32, ThemeAttr>,
    cur: ThemeAttr,
    resource_id: i32,
    cookie: i32,
    fuel: nat,
) -> Option<(ThemeAttr, i32, i32)>
    decreases fuel,
{
    if fuel == 0 {
        Some((cur, resource_id, cookie))
    } else if cur.type_ == TYPE_ATTRIBUTE {
        if attrs.contains_key(signed(cur.data)) {
            let next = attrs[signed(cur.data)];
            theme_followed(
                resources,
                attrs,
                next,
                if next.type_ == TYPE_REFERENCE {
                    signed(next.data)
                } else {
                    resource_id
                },
                package_cookie(next.source_package),
                (fuel - 1) as nat,
            )
        } else {
            None
        }
    } else if cur.type_ == TYPE_REFERENCE && cur.data != 0 && resources.value_of(cur.data)
        is Some {
        let v = resources.value_of(cur.data)->0;
        theme_followed(
            resources,
            attrs,
            ThemeAttr { type_: v.0, data: v.1, source_package: package_of(cur.data) },
            if v.0 == TYPE_REFERENCE {
                signed(v.1)
            } else {
                resource_id
            },
            package_cookie(package_of(cur.data)),
            (fuel - 1) as nat,
        )
    } else {
        Some((cur, resource_id, cookie))
    }
}

/// The value that a theme gives to an attribute.
pub open spec fn theme_entry(
    resources: Resources,
    attrs: Map<i32, ThemeAttr>,
    attr_id: i32,
) -> Option<TypedEntry> {
    if !attrs.contains_key(attr_id) {
        None
    } else {
        let start = attrs[attr_id];
        match theme_followed(
            resources,
            attrs,
            start,
            if start.type_ == TYPE_REFERENCE {
                signed(start.data)
            } else {
                0
            },
            package_cookie(start.source_package),
            MAX_ATTR_RESOLVE_DEPTH as nat,
        ) {
            Some((last, resource_id, cookie)) => Some(
                TypedEntry {
                    value_type: last.type_ as i32,
                    data: signed(last.data),
                    resource_id,
                    asset_cookie: if last.type_ == TYPE_STRING {
                        cookie
                    } else {
                        0
                    },
                },
            ),
            None => None,
        }
    }
}

/// The value that a theme gives to an attribute: references to other attributes
/// and to resources are followed, a bounded number of them, so that a cycle ends
/// too.
pub fn resolve_theme_attr(
    resources: &Resources,
    attrs: &HashMap<i32, ThemeAttr>,
    attr_id: i32,
) -> (entry: Option<TypedEntry>)
    ensures
        entry == theme_entry(*resources, attrs@, attr_id),
{
    let mut cur: ThemeAttr = match attrs.get(&attr_id) {
        Some(attr) => *attr,
        None => {
            return None;
        },
    };
    let mut resource_id: i32 = if cur.type_ == TYPE_REFERENCE {
        u32_to_i32(cur.data)
    } else {
        0
    };
    let mut string_pool_cookie: i32 = arsc_cookie_for_package(cur.source_package);
    let ghost end = theme_followed(
        *resources,
        attrs@,
        cur,
        resource_id,
        string_pool_cookie,
        MAX_ATTR_RESOLVE_DEPTH as nat,
    );
    let mut left: usize = MAX_ATTR_RESOLVE_DEPTH;
    while left > 0
        invariant_except_break
            theme_followed(
                *resources,
                attrs@,
                cur,
                resource_id,
                string_pool_cookie,
                left as nat,
            ) == end,
            theme_entry(*resources, attrs@, attr_id) is None == end is None,
        ensures
            end == Some((cur, resource_id, string_pool_cookie)),
        decreases left,
    {
        match cur.type_ {
            TYPE_ATTRIBUTE => {
                let next_id: i32 = u32_to_i32(cur.data);
                cur = match attrs.get(&next_id) {
                    Some(attr) => *attr,
                    None => {
                        return None;
                    },
                };
                string_pool_cookie = arsc_cookie_for_package(cur.source_package);
                if cur.type_ == TYPE_REFERENCE {
                    resource_id = u32_to_i32(cur.data);
                }
            },
            TYPE_REFERENCE => {
                if cur.data == 0 {
                    break;
                }
                match simple_value(resources, cur.data) {
                    Some(v) => {
                        string_pool_cookie = arsc_cookie_for(cur.data);
                        cur = ThemeAttr {
                            type_: v.0,
                            data: v.1,
                            source_package: package_id(cur.data),
                        };
                        if cur.type_ == TYPE_REFERENCE {
                            resource_id = u32_to_i32(v.1);
                        }
                    },
                    None => {
                        break;
                    },
                }
            },
            _ => {
                break;
            },
        }
        left -= 1;
    }
    let asset_cookie: i32 = if cur.type_ == TYPE_STRING {
        string_pool_cookie
    } else {
        0
    };
    Some(
        TypedEntry {
            value_type: cur.type_ as i32,
            data: u32_to_i32(cur.data),
            resource_id,
            asset_cookie,
        },
    )
}

proof fn lemma_followed_cookie(res: Resources, type_: u8, data: u32, cookie: i32, fuel: nat)
    ensures
        ({
            let end = followed(res, type_, data, cookie, fuel);
            end.2 == cookie || end.2 == ARSC_APP_COOKIE || end.2 == ARSC_FRAMEWORK_COOKIE
        }),
    decreases fuel,
{
    if fuel > 0 && type_ == TYPE_REFERENCE && data != 0 && res.value_of(data) is Some {
        let v = res.value_of(data)->0;
        lemma_followed_cookie(
            res,
            v.0,
            v.1,
            package_cookie(package_of(data)),
            (fuel - 1) as nat,
        );
    }
}

proof fn lemma_theme_followed_cookie(
    res: Resources,
    attrs: Map<i32, ThemeAttr>,
    cur: ThemeAttr,
    resource_id: i32,
    cookie: i32,
    fuel: nat,
)
    requires
        cookie == ARSC_APP_COOKIE || cookie == ARSC_FRAMEWORK_COOKIE,
    ensures
        match theme_followed(res, attrs, cur, resource_id, cookie, fuel) {
            Some((_, _, c)) => c == ARSC_APP_COOKIE || c == ARSC_FRAMEWORK_COOKIE,
            None => true,
        },
    decreases fuel,
{
    if fuel == 0 {
    } else if cur.type_ == TYPE_ATTRIBUTE {
        if attrs.contains_key(signed(cur.data)) {
            let next = attrs[signed(cur.data)];
            lemma_theme_followed_cookie(
                res,
                attrs,
                next,
                if next.type_ == TYPE_REFERENCE {
                    signed(next.data)
                } else {
                    resource_id
                },
                package_cookie(next.source_package),
                (fuel - 1) as nat,
            );
        }
    } else if cur.type_ == TYPE_REFERENCE && cur.data != 0 && res.value_of(cur.data) is Some {
        let v = res.value_of(cur.data)->0;
        lemma_theme_followed_cookie(
            res,
            attrs,
            ThemeAttr { type_: v.0, data: v.1, source_package: package_of(cur.data) },
            if v.0 == TYPE_REFERENCE {
                signed(v.1)
            } else {
                resource_id
            },
            package_cookie(package_of(cur.data)),
            (fuel - 1) as nat,
        );
    }
}

/// A string always comes with the cookie of a pool that can be asked for it:
/// from a theme that of one of the two tables, from an element that of one of the
/// tables or of the XML block itself. Any other value comes with cookie zero.
pub proof fn law_strings_name_their_pool(
    res: Resources,
    attrs: Map<i32, ThemeAttr>,
    attr_id: i32,
    value_type: u8,
    value_data: u32,
)
    ensures
        match theme_entry(res, attrs, attr_id) {
            Some(e) => if e.value_type == TYPE_STRING {
                e.asset_cookie == ARSC_APP_COOKIE || e.asset_cookie == ARSC_FRAMEWORK_COOKIE
            } else {
                e.asset_cookie == 0
            },
            None => true,
        },
        ({
            let e = inline_entry(res, value_type, value_data);
            if e.value_type == TYPE_STRING {
                e.asset_cookie == XML_BLOCK_COOKIE || e.asset_cookie == ARSC_APP_COOKIE
                    || e.asset_cookie == ARSC_FRAMEWORK_COOKIE
            } else {
                e.asset_cookie == 0
            }
        }),
{
    lemma_followed_cookie(
        res,
        value_type,
        value_data,
        XML_BLOCK_COOKIE,
        MAX_ATTR_RESOLVE_DEPTH as nat,
    );
    if attrs.contains_key(attr_id) {
        let start = attrs[attr_id];
        lemma_theme_followed_cookie(
            res,
            attrs,
            start,
            if start.type_ == TYPE_REFERENCE {
                signed(start.data)
            } else {
                0
            },
            package_cookie(start.source_package),
            MAX_ATTR_RESOLVE_DEPTH as nat,
        );
    }
}

/// A value that is no reference is given as it stands, with no resource id;
/// a string of an element keeps the cookie of its XML block, one of a theme that
/// of the table that it was taken from.
pub proof fn law_concrete_values_are_kept(
    res: Resources,
    attrs: Map<i32, ThemeAttr>,
    attr_id: i32,
    value_type: u8,
    value_data: u32,
)
    ensures
        value_type != TYPE_REFERENCE && value_type != TYPE_ATTRIBUTE ==> inline_entry(
            res,
            value_type,
            value_data,
        ) == (TypedEntry {
            value_type: value_type as i32,
            data: signed(value_data),
            resource_id: 0,
            asset_cookie: if value_type == TYPE_STRING {
                XML_BLOCK_COOKIE
            } else {
                0
            },
        }),
        value_type == 3 ==> inline_entry(res, value_type, value_data).asset_cookie == -1,
        attrs.contains_key(attr_id) && attrs[attr_id].type_ != TYPE_REFERENCE
            && attrs[attr_id].type_ != TYPE_ATTRIBUTE ==> theme_entry(res, attrs, attr_id) == Some(
            TypedEntry {
                value_type: attrs[attr_id].type_ as i32,
                data: signed(attrs[attr_id].data),
                resource_id: 0,
                asset_cookie: if attrs[attr_id].type_ == TYPE_STRING {
                    package_cookie(attrs[attr_id].source_package)
                } else {
                    0
                },
            },
        ),
{
}

proof fn lemma_self_reference_stays(
    res: Resources,
    attrs: Map<i32, ThemeAttr>,
    attr_id: i32,
    resource_id: i32,
    fuel: nat,
)
    requires
        attrs.contains_key(attr_id),
        attrs[attr_id].type_ == TYPE_ATTRIBUTE,
        signed(attrs[attr_id].data) == attr_id,
    ensures
        theme_followed(
            res,
            attrs,
            attrs[attr_id],
            resource_id,
            package_cookie(attrs[attr_id].source_package),
            fuel,
        ) == Some(
            (attrs[attr_id], resource_id, package_cookie(attrs[attr_id].source_package)),
        ),
    decreases fuel,
{
    if fuel > 0 {
        lemma_self_reference_stays(res, attrs, attr_id, resource_id, (fuel - 1) as nat);
    }
}

/// An attribute that refers to itself does not hang the lookup; it is given
/// as the unresolved reference that it is.
pub proof fn law_cycle_ends_in_the_reference(
    res: Resources,
    attrs: Map<i32, ThemeAttr>,
    attr_id: i32,
)
    requires
        attrs.contains_key(attr_id),
        attrs[attr_id].type_ == TYPE_ATTRIBUTE,
        signed(attrs[attr_id].data) == attr_id,
    ensures
        theme_entry(res, attrs, attr_id) == Some(
            TypedEntry {
                value_type: TYPE_ATTRIBUTE as i32,
                data: attr_id,
                resource_id: 0,
                asset_cookie: 0,
            },
        ),
{
    lemma_self_reference_stays(res, attrs, attr_id, 0, MAX_ATTR_RESOLVE_DEPTH as nat);
}

/// A resource is looked up in the table of its package, which is the highest byte of
/// its id: the framework's for package one, the application's for any other. Its value
/// is what the table has for it, and a complex one has none.
pub proof fn law_resource_is_read_from_its_table(res: Resources, package: u8, rest: u32)
    requires
        rest < 0x100_0000,
    ensures
        ({
            let id = (package * 0x100_0000 + rest) as u32;
            let table = if package == 1 {
                res.framework
            } else {
                res.app
            };
            &&& package_of(id) == package
            &&& res.value_of(id) is Some == (table is Some && table->0.values@.contains_key(id)
                && !table->0.values@[id].is_complex)
            &&& res.value_of(id) matches Some(v) ==> v.0 == table->0.values@[id].type_ && v.1
                == table->0.values@[id].data
            &&& res.style_of(id) is Some == (table is Some && table->0.styles@.contains_key(id))
            &&& res.style_of(id) matches Some(s) ==> s == table->0.styles@[id]
        }),
{
}

spec fn last_reference(steps: Seq<ThemeAttr>, n: nat) -> i32
    decreases n,
{
    if n == 0 {
        0
    } else if steps[n - 1].type_ == TYPE_REFERENCE {
        signed(steps[n - 1].data)
    } else {
        last_reference(steps, (n - 1) as nat)
    }
}

proof fn lemma_last_reference(steps: Seq<ThemeAttr>, n: nat, r: int)
    requires
        n <= steps.len(),
    ensures
        0 <= r < n && steps[r].type_ == TYPE_REFERENCE && (forall|j: int|
            r < j < n ==> (#[trigger] steps[j]).type_ != TYPE_REFERENCE) ==> last_reference(
            steps,
            n,
        ) == signed(steps[r].data),
        (forall|j: int| 0 <= j < n ==> (#[trigger] steps[j]).type_ != TYPE_REFERENCE)
            ==> last_reference(steps, n) == 0,
    decreases n,
{
    if n > 0 {
        lemma_last_reference(steps, (n - 1) as nat, r);
        assert(steps[n - 1] == steps[n - 1]);
    }
}

proof fn lemma_theme_walk(
    res: Resources,
    attrs: Map<i32, ThemeAttr>,
    steps: Seq<ThemeAttr>,
    i: nat,
    fuel: nat,
)
    requires
        i < steps.len(),
        i <= fuel,
        forall|k: int|
            0 <= k < i ==> {
                let a = #[trigger] steps[k];
                let b = steps[k + 1];
                ||| a.type_ == 2 && attrs.contains_key(signed(a.data)) && b == attrs[signed(a.data)]
                ||| a.type_ == 1 && a.data != 0 && res.value_of(a.data) == Some((b.type_, b.data))
                    && b.source_package == package_of(a.data)
            },
    ensures
        theme_followed(
            res,
            attrs,
            steps[0],
            last_reference(steps, 1),
            package_cookie(steps[0].source_package),
            fuel,
        ) == theme_followed(
            res,
            attrs,
            steps[i as int],
            last_reference(steps, i + 1),
            package_cookie(steps[i as int].source_package),
            (fuel - i) as nat,
        ),
    decreases i,
{
    if i > 0 {
        let k = (i - 1) as nat;
        lemma_theme_walk(res, attrs, steps, k, fuel);
        let a = steps[k as int];
        let b = steps[i as int];
        assert(steps[k as int + 1] == b);
        if a.type_ == 1 {
            assert(b == (ThemeAttr {
                type_: b.type_,
                data: b.data,
                source_package: package_of(a.data),
            }));
        }
    }
}

/// What a theme gives to an attribute stands at the end of a chain. The chain begins
/// with the attribute's own value. A reference to an attribute leads to the theme's
/// value for that, a reference to a resource to the value of the resource, and the
/// chain goes on for sixteen steps at most. It ends earlier at a value that is no
/// reference, at a null reference, and at a resource without a simple value. The entry
/// has the type and the data of the last value, and for a string the cookie of the table
/// that the value comes from; its resource is the last one that the chain refers to.
pub proof fn law_theme_value_is_at_the_end_of_its_chain(
    res: Resources,
    attrs: Map<i32, ThemeAttr>,
    attr_id: i32,
    steps: Seq<ThemeAttr>,
    r: int,
)
    requires
        1 <= steps.len() <= 17,
        attrs.contains_key(attr_id),
        steps[0] == attrs[attr_id],
        forall|k: int|
            0 <= k < steps.len() - 1 ==> {
                let a = #[trigger] steps[k];
                let b = steps[k + 1];
                ||| a.type_ == 2 && attrs.contains_key(signed(a.data)) && b == attrs[signed(a.data)]
                ||| a.type_ == 1 && a.data != 0 && res.value_of(a.data) == Some((b.type_, b.data))
                    && b.source_package == package_of(a.data)
            },
        steps.len() == 17 || ({
            let last = steps.last();
            ||| last.type_ != 1 && last.type_ != 2
            ||| last.type_ == 1 && (last.data == 0 || res.value_of(last.data) is None)
        }),
    ensures
        theme_entry(res, attrs, attr_id) is Some,
        ({
            let last = steps.last();
            let entry = theme_entry(res, attrs, attr_id)->0;
            &&& entry.value_type == last.type_
            &&& entry.data == signed(last.data)
            &&& entry.asset_cookie == (if last.type_ != 3 {
                0int
            } else if last.source_package == 1 {
                2
            } else {
                1
            })
            &&& 0 <= r < steps.len() && steps[r].type_ == 1 && (forall|j: int|
                r < j < steps.len() ==> (#[trigger] steps[j]).type_ != 1) ==> entry.resource_id
                == signed(steps[r].data)
            &&& (forall|j: int| 0 <= j < steps.len() ==> (#[trigger] steps[j]).type_ != 1)
                ==> entry.resource_id == 0
        }),
{
    let n = (steps.len() - 1) as nat;
    reveal_with_fuel(last_reference, 2);
    lemma_theme_walk(res, attrs, steps, n, 16);
    lemma_last_reference(steps, n + 1, r);
}

/// An attribute that a theme lacks has no value, nor has one whose chain of references
/// comes to an attribute that the theme lacks.
pub proof fn law_lacking_attribute_has_no_value(
    res: Resources,
    attrs: Map<i32, ThemeAttr>,
    attr_id: i32,
    steps: Seq<ThemeAttr>,
)
    requires
        attrs.contains_key(attr_id) ==> {
            &&& 1 <= steps.len() <= 16
            &&& steps[0] == attrs[attr_id]
            &&& forall|k: int|
                0 <= k < steps.len() - 1 ==> {
                    let a = #[trigger] steps[k];
                    let b = steps[k + 1];
                    ||| a.type_ == 2 && attrs.contains_key(signed(a.data)) && b
                        == attrs[signed(a.data)]
                    ||| a.type_ == 1 && a.data != 0 && res.value_of(a.data) == Some(
                        (b.type_, b.data),
                    ) && b.source_package == package_of(a.data)
                }
            &&& steps.last().type_ == 2
            &&& !attrs.contains_key(signed(steps.last().data))
        },
    ensures
        theme_entry(res, attrs, attr_id) is None,
{
    if attrs.contains_key(attr_id) {
        reveal_with_fuel(last_reference, 2);
        lemma_theme_walk(res, attrs, steps, (steps.len() - 1) as nat, 16);
    }
}

/// A theme value that refers to a resource with a concrete value is that value: its type
/// and data, with the id that was referred to, and for a string the cookie of the table
/// of that id's package.
pub proof fn law_theme_reference_gives_the_resource(
    res: Resources,
    attrs: Map<i32, ThemeAttr>,
    attr_id: i32,
    type_: u8,
    data: u32,
)
    requires
        attrs.contains_key(attr_id),
        attrs[attr_id].type_ == 1,
        attrs[attr_id].data != 0,
        res.value_of(attrs[attr_id].data) == Some((type_, data)),
        type_ != 1,
        type_ != 2,
    ensures
        theme_entry(res, attrs, attr_id) is Some,
        ({
            let id = attrs[attr_id].data;
            let entry = theme_entry(res, attrs, attr_id)->0;
            &&& entry.value_type == type_
            &&& entry.data == signed(data)
            &&& entry.resource_id == signed(id)
            &&& entry.asset_cookie == (if type_ != 3 {
                0int
            } else if 0x100_0000 <= id < 0x200_0000 {
                2
            } else {
                1
            })
        }),
{
    let start = attrs[attr_id];
    let steps = seq![
        start,
        ThemeAttr { type_, data, source_package: package_of(start.data) },
    ];
    law_theme_value_is_at_the_end_of_its_chain(res, attrs, attr_id, steps, 0);
}

proof fn lemma_inline_walk(res: Resources, steps: Seq<(u8, u32)>, i: nat, fuel: nat, cookie: i32)
    requires
        i < steps.len(),
        i <= fuel,
        forall|k: int|
            0 <= k < i ==> (#[trigger] steps[k]).0 == 1 && steps[k].1 != 0 && res.value_of(
                steps[k].1,
            ) == Some(steps[k + 1]),
    ensures
        followed(res, steps[0].0, steps[0].1, cookie, fuel) == followed(
            res,
            steps[i as int].0,
            steps[i as int].1,
            if i == 0 {
                cookie
            } else {
                package_cookie(package_of(steps[i - 1].1))
            },
            (fuel - i) as nat,
        ),
    decreases i,
{
    if i > 0 {
        lemma_inline_walk(res, steps, (i - 1) as nat, fuel, cookie);
        assert(steps[i - 1].0 == 1);
    }
}

/// What is written in an XML element stands at the end of a chain too: a reference to a
/// resource leads to the resource's value, for sixteen steps at most. The chain ends
/// earlier at a value that is no reference, at a null reference, and at a resource
/// without a simple value; an attribute of the theme is not looked up. The entry's
/// resource is the one that the element itself names, and a string is in the pool of the
/// XML block where the element has it itself, else in the table of the last resource.
pub proof fn law_inline_value_is_at_the_end_of_its_chain(res: Resources, steps: Seq<(u8, u32)>)
    requires
        1 <= steps.len() <= 17,
        forall|k: int|
            0 <= k < steps.len() - 1 ==> (#[trigger] steps[k]).0 == 1 && steps[k].1 != 0
                && res.value_of(steps[k].1) == Some(steps[k + 1]),
        steps.len() == 17 || steps.last().0 != 1 || steps.last().1 == 0 || res.value_of(
            steps.last().1,
        ) is None,
    ensures
        ({
            let (type_, data) = steps[0];
            let entry = inline_entry(res, type_, data);
            let n = steps.len() as int;
            &&& entry.value_type == steps.last().0
            &&& entry.data == signed(steps.last().1)
            &&& entry.resource_id == (if type_ == 1 || type_ == 2 {
                signed(data) as int
            } else {
                0
            })
            &&& entry.asset_cookie == (if steps.last().0 != 3 {
                0int
            } else if n == 1 {
                -1
            } else if 0x100_0000 <= steps[n - 2].1 < 0x200_0000 {
                2
            } else {
                1
            })
        }),
{
    lemma_inline_walk(res, steps, (steps.len() - 1) as nat, 16, XML_BLOCK_COOKIE);
}

/// A text that is not there is told apart from every text that is, and texts are the same
/// where they hold the same characters.
pub proof fn law_texts_are_told_apart(a: String, b: Option<String>)
    ensures
        optional_text(Some(a)) == Some(a@),
        optional_text(Some(a)) == optional_text(b) <==> b is Some && b->0@ == a@,
        optional_text(None) != optional_text(Some(a)),
        optional_text(b) is None <==> b is None,
{
}

} // verus!
