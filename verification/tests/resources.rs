use std::collections::HashMap;

use framework::asset_registry;
use framework::asset_registry::{AssetRegistry, AssetRegistryError};
use framework::assets::{
    asset_entry_candidates, asset_span, atl_read_asset_return, atl_seek_whence_to_lseek,
    cached_arsc_bytes, fd_window, get_asset_length, get_asset_remaining_length, open_asset, read_asset,
    read_asset_bytes_from, read_asset_char, resolve_resource_identifier, seek_asset, AssetError,
    AssetFdError, EntrySpan,
};
use framework::resources::{
    arsc_pool_string, i32_to_u32, resolve_inline_attr_value, resolve_res_value,
    resolve_theme_attr, u32_to_i32, NamedResource, PackageNames, ResourceEntry, ResourceTable,
    Resources, Style, StyleEntry, TypedEntry, ARSC_APP_COOKIE, ARSC_FRAMEWORK_COOKIE,
    STYLE_ASSET_COOKIE, STYLE_DATA, STYLE_NUM_ENTRIES, STYLE_RESOURCE_ID, STYLE_TYPE,
    TYPE_ATTRIBUTE, TYPE_NULL, TYPE_REFERENCE, TYPE_STRING, XML_BLOCK_COOKIE,
};
use framework::styling::{apply_theme_style, merge_theme_style};
use framework::theme_registry;
use framework::theme_registry::{Theme, ThemeAttr, ThemeRegistry};
use framework::typed_array::{
    apply_style, count_found, fill_typed_array, resolve_inline_theme_refs,
    resolve_theme_attributes, resolve_xml_attributes,
};
use framework::typed_value::{
    load_resource_value, load_theme_attribute_value, resolve_resource_name,
    resolve_resource_package_name, xml_from_framework,
};
use framework::xml_registry;
use framework::xml_registry::{
    XmlAttribute, XmlDocument, XmlElement, XmlEventKind, XmlRegistry, XML_ATTR_NOT_FOUND,
    XML_EVENT_END_DOCUMENT, XML_EVENT_END_TAG, XML_EVENT_START_TAG,
};

fn nothing() -> Resources {
    Resources { app: None, framework: None }
}

fn attr(type_: u8, data: u32, source_package: u8) -> ThemeAttr {
    ThemeAttr { type_, data, source_package }
}

#[test]
fn resolve_theme_attr_returns_concrete_values_and_none_for_missing() {
    let mut attrs = HashMap::new();
    let win_action_bar = u32_to_i32(0x7f01_0058);
    attrs.insert(win_action_bar, attr(0x12, 0xffff_ffff, 0x7f));
    let e = resolve_theme_attr(&nothing(), &attrs, win_action_bar).expect("present attr resolves");
    assert_eq!(e.value_type, 0x12, "TYPE_INT_BOOLEAN preserved");
    assert_eq!(
        e.data,
        u32_to_i32(0xffff_ffff),
        "boolean true data preserved"
    );
    assert_eq!(e.resource_id, 0, "a concrete value has no resource id");

    assert!(
        resolve_theme_attr(&nothing(), &attrs, u32_to_i32(0x7f01_9999)).is_none(),
        "an attribute absent from the theme must be None, not a fabricated value"
    );
}

#[test]
fn resolve_theme_attr_follows_theme_attribute_indirection_and_breaks_cycles() {
    let mut attrs = HashMap::new();
    let alias = u32_to_i32(0x7f01_0001);
    let target = u32_to_i32(0x7f01_0002);

    attrs.insert(
        alias,
        attr(TYPE_ATTRIBUTE, u32::from_ne_bytes(target.to_ne_bytes()), 0x7f),
    );
    attrs.insert(target, attr(0x10, 7, 0x7f));
    let e = resolve_theme_attr(&nothing(), &attrs, alias).expect("indirection resolves");
    assert_eq!(e.value_type, 0x10, "resolved to the target's concrete type");
    assert_eq!(e.data, 7, "resolved to the target's concrete data");

    let mut cyc = HashMap::new();
    let a = u32_to_i32(0x7f01_00aa);
    cyc.insert(
        a,
        attr(TYPE_ATTRIBUTE, u32::from_ne_bytes(a.to_ne_bytes()), 0x7f),
    );

    let e = resolve_theme_attr(&nothing(), &cyc, a).expect("cycle terminates with a value");
    assert_eq!(e.value_type, i32::from(TYPE_ATTRIBUTE));
}

#[test]
fn styled_type_string_cookie_routes_to_the_owning_pool() {
    let mut attrs = HashMap::new();
    let app_attr = u32_to_i32(0x7f01_0010);
    attrs.insert(app_attr, attr(TYPE_STRING, 0x456, 0x7f));
    let fw_attr = u32_to_i32(0x0101_0010);
    attrs.insert(fw_attr, attr(TYPE_STRING, 7, 0x01));
    let e = resolve_theme_attr(&nothing(), &attrs, app_attr).expect("app-table string resolves");
    assert_eq!(
        e.asset_cookie, ARSC_APP_COOKIE,
        "an app-table theme string must carry the app ARSC cookie (was -1 → the null-string bug)"
    );
    let e =
        resolve_theme_attr(&nothing(), &attrs, fw_attr).expect("framework-table string resolves");
    assert_eq!(
        e.asset_cookie, ARSC_FRAMEWORK_COOKIE,
        "a framework-table theme string must carry the framework ARSC cookie"
    );

    let inline = resolve_inline_attr_value(&nothing(), TYPE_STRING, 42);
    assert_eq!(
        inline.asset_cookie, XML_BLOCK_COOKIE,
        "an inline XmlBlock string keeps the XmlBlock cookie"
    );

    let non_string = resolve_inline_attr_value(&nothing(), 0x10, 5);
    assert_eq!(non_string.asset_cookie, 0);
}

#[test]
fn resolve_theme_attributes_reads_a_registered_theme_and_is_total_on_bad_handles() {
    let mut themes = ThemeRegistry::new();
    let theme = theme_registry::allocate(&mut themes).expect("allocate theme");
    let attr_a = u32_to_i32(0x7f01_0058);
    let attr_b = u32_to_i32(0x7f01_00a9);
    themes
        .get_mut(theme)
        .expect("populate theme")
        .attrs
        .insert(attr_a, attr(0x12, 1, 0x7f));

    let out = resolve_theme_attributes(&nothing(), &themes, theme, &[attr_a, attr_b]);
    assert_eq!(out.len(), 2);
    assert!(out[0].is_some(), "registered attr resolves");
    assert!(out[1].is_none(), "unset attr is None (→ TYPE_NULL default)");

    let bogus = i64::MAX;
    let out = resolve_theme_attributes(&nothing(), &themes, bogus, &[attr_a, attr_b]);
    assert_eq!(out, vec![None, None]);

    themes.free(theme).expect("free theme");
}

#[test]
fn resolve_inline_theme_refs_resolves_attribute_values_against_the_theme() {
    let mut themes = ThemeRegistry::new();
    let theme = theme_registry::allocate(&mut themes).expect("allocate theme");

    let referenced_attr = 0x7f01_0001u32;
    themes
        .get_mut(theme)
        .expect("populate theme")
        .attrs
        .insert(u32_to_i32(referenced_attr), attr(0x10, 42, 0x7f));

    let mut entries = vec![
        Some(TypedEntry {
            value_type: i32::from(TYPE_ATTRIBUTE),
            data: u32_to_i32(referenced_attr),
            resource_id: u32_to_i32(referenced_attr),
            asset_cookie: 0,
        }),
        Some(TypedEntry {
            value_type: 0x1c,
            data: 0x1234_5678,
            resource_id: 0,
            asset_cookie: 0,
        }),
        None,
    ];
    resolve_inline_theme_refs(&nothing(), &themes, theme, &mut entries);

    let resolved = entries[0].expect("the ?attr value resolved against the theme");
    assert_eq!(
        resolved.value_type, 0x10,
        "resolved to the theme attr's type"
    );
    assert_eq!(resolved.data, 42, "resolved to the theme attr's data");
    assert_eq!(
        entries[1].expect("concrete slot untouched").data,
        0x1234_5678
    );
    assert!(entries[2].is_none(), "absent slot stays None");

    let mut undefined = vec![Some(TypedEntry {
        value_type: i32::from(TYPE_ATTRIBUTE),
        data: u32_to_i32(0x7f01_9999),
        resource_id: u32_to_i32(0x7f01_9999),
        asset_cookie: 0,
    })];
    resolve_inline_theme_refs(&nothing(), &themes, theme, &mut undefined);
    assert_eq!(
        undefined[0].expect("slot present").value_type,
        i32::from(TYPE_ATTRIBUTE),
        "an attr absent from the theme stays an unresolved reference"
    );

    themes.free(theme).expect("free theme");
}

fn include_tag() -> XmlElement {
    XmlElement {
        namespace: None,
        name: Some("include".to_string()),
        attributes: vec![
            XmlAttribute {
                namespace: Some("http://schemas.android.com/apk/res/android".to_string()),
                name: Some("id".to_string()),
                name_resource: 0x0101_00d0,
                value_type: TYPE_REFERENCE,
                value_data: 0x7f09_027b,
                value_string: None,
            },
            XmlAttribute {
                namespace: None,
                name: Some("layout".to_string()),
                name_resource: 0,
                value_type: TYPE_REFERENCE,
                value_data: 0x7f0c_00a3,
                value_string: None,
            },
        ],
        line: 0,
    }
}

#[test]
fn resolve_xml_attributes_serves_include_android_id_and_never_matches_attr_zero() {
    let doc = XmlDocument {
        events: vec![XmlEventKind::StartTag(0), XmlEventKind::EndTag(0)],
        elements: vec![include_tag()],
        strings: vec![],
    };
    let mut blocks = XmlRegistry::new();
    let handle = xml_registry::store(&mut blocks, doc).expect("store include block");

    blocks
        .get_mut(handle)
        .expect("advance to include")
        .next_event();

    let out = resolve_xml_attributes(&nothing(), &blocks, handle, &[u32_to_i32(0x0101_00d0), 0]);
    assert_eq!(out.len(), 2);
    let id_entry = out[0].expect("android:id resolves on the include tag");
    assert_eq!(
        id_entry.resource_id,
        u32_to_i32(0x7f09_027b),
        "getResourceId must see the include-tag override id"
    );
    assert_ne!(
        id_entry.value_type, 0,
        "TYPE_NULL would make TypedArray.getResourceId return the 0 default → override dropped"
    );
    assert!(
        out[1].is_none(),
        "requested attr id 0 must never match (the zero-stub failure signature)"
    );

    blocks.free(handle).expect("free include block");
}

#[test]
fn fill_typed_array_writes_exact_bounds_values_and_indices() {
    let entries = [
        Some(TypedEntry {
            value_type: i32::from(TYPE_STRING),
            data: 0x18,
            resource_id: 0,
            asset_cookie: XML_BLOCK_COOKIE,
        }),
        None,
        Some(TypedEntry {
            value_type: i32::from(TYPE_REFERENCE),
            data: 0x7f03_0000,
            resource_id: 0x7f03_0000,
            asset_cookie: 0,
        }),
        None,
    ];
    let n = entries.len();
    let vals_len = n * STYLE_NUM_ENTRIES;
    let idx_len = n + 1;

    let mut values = vec![-1i32; vals_len + 2];
    let mut indices = vec![-1i32; idx_len + 2];

    fill_typed_array(
        Some(&mut values[1..1 + vals_len]),
        Some(&mut indices[1..1 + idx_len]),
        &entries,
    );

    assert_eq!(values[0], -1, "outValues underflow guard");
    assert_eq!(values[vals_len + 1], -1, "outValues overflow guard");
    assert_eq!(indices[0], -1, "outIndices underflow guard");
    assert_eq!(indices[idx_len + 1], -1, "outIndices overflow guard");

    let written = [
        STYLE_TYPE,
        STYLE_DATA,
        STYLE_ASSET_COOKIE,
        STYLE_RESOURCE_ID,
    ];
    for (attr, e) in [(0usize, &entries[0]), (2usize, &entries[2])] {
        let win = 1 + attr * STYLE_NUM_ENTRIES;
        let e = e.unwrap();
        assert_eq!(values[win + STYLE_TYPE], e.value_type, "STYLE_TYPE @0");
        assert_eq!(values[win + STYLE_DATA], e.data, "STYLE_DATA @1");
        assert_eq!(
            values[win + STYLE_ASSET_COOKIE],
            e.asset_cookie,
            "STYLE_ASSET_COOKIE @2"
        );
        assert_eq!(
            values[win + STYLE_RESOURCE_ID],
            e.resource_id,
            "STYLE_RESOURCE_ID @3"
        );
        for slot in 0..STYLE_NUM_ENTRIES {
            if !written.contains(&slot) {
                assert_eq!(values[win + slot], -1, "unwritten slot untouched");
            }
        }
    }

    for attr in [1usize, 3usize] {
        let win = 1 + attr * STYLE_NUM_ENTRIES;
        assert_eq!(values[win + STYLE_TYPE], TYPE_NULL, "absent → TYPE_NULL @0");
        for slot in 0..STYLE_NUM_ENTRIES {
            if slot != STYLE_TYPE {
                assert_eq!(values[win + slot], -1, "absent: other slots untouched");
            }
        }
    }

    assert_eq!(indices[1], 2, "outIndices[0] = number found");
    assert_eq!(indices[2], 1, "first found at request position 1 (1-based)");
    assert_eq!(
        indices[3], 3,
        "second found at request position 3 (1-based)"
    );
    assert_eq!(indices[1 + 3], -1, "outIndices beyond count untouched");
    assert_eq!(count_found(&entries), 2);
}

#[test]
fn fill_typed_array_reference_resource_id_is_at_style_resource_id_slot() {
    let id = 0x7f03_0000i32;
    let entries = [Some(TypedEntry {
        value_type: i32::from(TYPE_REFERENCE),
        data: id,
        resource_id: id,
        asset_cookie: 0,
    })];
    let mut values = vec![0i32; STYLE_NUM_ENTRIES];
    fill_typed_array(Some(&mut values), None, &entries);
    assert_eq!(values[STYLE_TYPE], i32::from(TYPE_REFERENCE));
    assert_eq!(
        values[STYLE_RESOURCE_ID], id,
        "getResourceId reads the referenced id from STYLE_RESOURCE_ID"
    );
}

#[test]
fn fill_typed_array_null_pointers_are_a_no_op() {
    let entries = [Some(TypedEntry {
        value_type: i32::from(TYPE_STRING),
        data: 1,
        resource_id: 0,
        asset_cookie: XML_BLOCK_COOKIE,
    })];
    fill_typed_array(None, None, &entries);
}

#[test]
fn fill_typed_array_zero_attrs_writes_only_changed_count() {
    let mut indices = [-1i32; 3];
    fill_typed_array(None, Some(&mut indices[1..2]), &[]);
    assert_eq!(indices[0], -1, "underflow guard untouched");
    assert_eq!(indices[1], 0, "outIndices[0] = 0 with zero attrs");
    assert_eq!(indices[2], -1, "overflow guard untouched");
}

#[test]
fn u32_to_i32_preserves_all_bits() {
    for &v in &[0u32, 1, 0x7fff_ffff, 0x8000_0000, 0xffff_ffff, 0x0101_0003] {
        assert_eq!(u32_to_i32(v).to_ne_bytes(), v.to_ne_bytes());
        assert_eq!(i32_to_u32(u32_to_i32(v)), v);
    }
}

#[test]
fn atl_read_asset_return_maps_eof_to_zero_and_errors_negative() {
    assert_eq!(atl_read_asset_return(&Ok(vec![7u8; 3])), 3);
    assert_eq!(
        atl_read_asset_return(&Ok(Vec::new())),
        0,
        "EOF must be 0 (Java maps it to -1); any negative throws IOException"
    );
    assert_eq!(
        atl_read_asset_return(&Err(AssetRegistryError::StaleHandle)),
        -1,
        "only a genuine error is negative (→ the designed IOException)"
    );
}

#[test]
fn atl_seek_whence_translation_matches_asset_input_stream_callers() {
    assert_eq!(atl_seek_whence_to_lseek(-1), 0, "whence < 0 is SET");
    assert_eq!(atl_seek_whence_to_lseek(0), 1, "whence 0 is CUR");
    assert_eq!(atl_seek_whence_to_lseek(1), 2, "whence > 0 is END");
}

#[test]
fn resolve_resource_identifier_parses_name_forms_and_returns_zero_when_unresolvable() {
    assert_eq!(resolve_resource_identifier(&nothing(), "", "string", "com.x"), 0);
    assert_eq!(resolve_resource_identifier(&nothing(), "foo", "", ""), 0);
    assert_eq!(resolve_resource_identifier(&nothing(), "type/", "", ""), 0);
}

#[test]
fn arsc_byte_cache_loads_once_and_reuses_the_backing_storage() {
    let mut cache = None;
    let loads = std::cell::Cell::new(0usize);
    let first = cached_arsc_bytes(&mut cache, || {
        loads.set(loads.get() + 1);
        Some(vec![1, 2, 3, 4])
    })
    .expect("first load succeeds")
    .as_ptr();
    let repeated = cached_arsc_bytes(&mut cache, || panic!("cached table must not reload"))
        .expect("cached load succeeds");

    assert_eq!(loads.get(), 1);
    assert!(std::ptr::eq(first, repeated.as_ptr()));
    let mut failed = None;
    assert!(cached_arsc_bytes(&mut failed, || None).is_none());
    assert!(cached_arsc_bytes(&mut failed, || panic!("not tried again")).is_none());
}

const PNG: &[u8] = &[
    0x89, b'P', b'N', b'G', 0x0d, 0x0a, 0x1a, 0x0a, 0x00, 0x00, 0x00, 0x0d, b'I', b'H', b'D',
    b'R', 0x00, 0x00, 0x00, 0x02, 0x00, 0x00, 0x00, 0x03, 0x08, 0x06, 0x00, 0x00, 0x00,
];

#[test]
fn root_relative_res_entry_serves_open_read_seek_and_length_via_the_shared_rule() {
    const CFG: &[u8] = b"cfg-bytes";
    let mut archive: HashMap<&str, &[u8]> = HashMap::new();
    archive.insert("res/drawable-hdpi-v4/roblox_logo.png", PNG);
    archive.insert("assets/config.txt", CFG);
    let read = |name: &str| {
        read_asset_bytes_from(|entry: &str| archive.get(entry).map(|b| b.to_vec()), name)
    };

    let bytes = read("res/drawable-hdpi-v4/roblox_logo.png")
        .expect("root-relative res entry must open");
    assert_eq!(bytes, PNG);
    assert_eq!(read("config.txt").as_deref(), Some(CFG));
    assert_eq!(read("assets/config.txt").as_deref(), Some(CFG));
    assert!(read("assets/roblox_logo.png").is_none());

    let mut streams = AssetRegistry::new();
    assert_eq!(open_asset(&mut streams, None), 0);
    let handle = open_asset(&mut streams, Some(bytes));
    assert_ne!(handle, 0, "store opened asset");
    assert_eq!(get_asset_length(&streams, handle), PNG.len() as i64);
    let full = read_asset(&mut streams, handle, PNG.len() + 8, 0, PNG.len() as i64 + 8);
    assert_eq!(
        full.ret,
        i32::try_from(PNG.len()).expect("fits"),
        "a data read returns the byte count"
    );
    assert_eq!(full.bytes, PNG);
    assert_eq!(
        read_asset(&mut streams, handle, 16, 0, 16).ret,
        0,
        "the terminal EOF read must map to 0 — -1 makes ATL's readAsset_internal throw \
         IOException (the challenge4 splash fatal)"
    );

    assert_eq!(seek_asset(&mut streams, handle, 0, -1), 0);
    assert_eq!(
        get_asset_remaining_length(&streams, handle),
        PNG.len() as i64
    );
    assert_eq!(read_asset(&mut streams, handle, 4, 0, 4).bytes, &PNG[..4]);
    assert_eq!(
        seek_asset(&mut streams, handle, 0, 0),
        4,
        "mark()'s whence-0 seek reports the current position"
    );
    assert_eq!(
        get_asset_remaining_length(&streams, handle),
        PNG.len() as i64 - 4,
        "the whence-0 position query must not rewind the stream"
    );
    assert_eq!(read_asset_char(&mut streams, handle), 0x0d);
    asset_registry::free(&mut streams, handle).expect("free");
    assert_eq!(read_asset_char(&mut streams, handle), -1);
}

#[test]
fn asset_fd_for_serves_stored_entries_and_refuses_absent_and_compressed() {
    let span = |stored: bool| EntrySpan {
        data_start: 64,
        uncompressed_size: 22,
        stored,
    };
    assert_eq!(
        asset_entry_candidates("assets/dexopt/baseline.prof"),
        ["assets/dexopt/baseline.prof"]
    );
    assert_eq!(
        asset_entry_candidates("dexopt/baseline.prof"),
        ["dexopt/baseline.prof", "assets/dexopt/baseline.prof"]
    );
    let served = asset_span(vec![Err("missing"), Ok(span(true))]).expect("stored asset fd");
    assert_eq!(served, span(true));
    assert_eq!(fd_window(64, 22), Some((64, 22)));
    assert_eq!(fd_window(u64::MAX, 22), None);
    assert!(matches!(
        asset_span(vec![Err::<EntrySpan, &str>("missing")]),
        Err(AssetFdError::Apk("missing"))
    ));
    assert!(matches!(
        asset_span(vec![Err("missing"), Ok(span(false))]),
        Err(AssetFdError::Compressed)
    ));
    assert_eq!(
        AssetFdError::Apk("gone".to_string()).message(),
        "apk: gone"
    );
    assert_eq!(
        AssetFdError::<String>::Compressed.message(),
        "entry is compressed (fd path serves Stored only)"
    );
    assert_eq!(
        AssetFdError::Io("denied".to_string()).message(),
        "open APK for fd: denied"
    );
}

#[test]
fn documents_that_cannot_be_opened_say_why() {
    assert_eq!(
        AssetError::NoApkPath.message(),
        "no APK path was stashed for asset access"
    );
    assert_eq!(AssetError::Apk("a".to_string()).message(), "APK read error: a");
    assert_eq!(
        AssetError::Axml("b".to_string()).message(),
        "binary-XML parse error: b"
    );
    assert_eq!(
        AssetError::Registry("c".to_string()).message(),
        "xml-block registry error: c"
    );
    assert!(xml_from_framework(2));
    assert!(!xml_from_framework(1));
}

fn table() -> ResourceTable {
    ResourceTable {
        values: HashMap::new(),
        styles: HashMap::new(),
        strings: Vec::new(),
        packages: HashMap::new(),
        names: Vec::new(),
    }
}

fn entry(type_: u8, data: u32) -> ResourceEntry {
    ResourceEntry { type_, data, is_complex: false, key_index: 0 }
}

fn sample() -> Resources {
    let mut app = table();
    app.values.insert(0x7f01_0000, entry(TYPE_STRING, 0));
    app.values.insert(0x7f01_0001, entry(TYPE_REFERENCE, 0x7f01_0000));
    app.values.insert(0x7f01_0002, entry(TYPE_REFERENCE, 0x7f01_0002));
    app.values.insert(0x7f01_0003, entry(0x10, 99));
    app.strings.push("hello".to_string());
    app.packages.insert(
        0x7f,
        PackageNames {
            name: Some("com.x".to_string()),
            types: vec!["string".to_string()],
            keys: vec!["greeting".to_string()],
        },
    );
    app.names.push(NamedResource {
        package: "com.x".to_string(),
        kind: "string".to_string(),
        entry: "greeting".to_string(),
        id: 0x7f01_0000,
    });
    app.styles.insert(
        0x7f02_0000,
        Style {
            parent_id: 0x7f02_0001,
            entries: vec![
                StyleEntry { attr_id: 0x7f03_0001, type_: 0x10, data: 1 },
                StyleEntry { attr_id: 0, type_: 0x10, data: 7 },
            ],
        },
    );
    app.styles.insert(
        0x7f02_0001,
        Style {
            parent_id: 0,
            entries: vec![
                StyleEntry { attr_id: 0x7f03_0001, type_: 0x10, data: 2 },
                StyleEntry { attr_id: 0x7f03_0002, type_: 0x10, data: 3 },
            ],
        },
    );
    Resources { app: Some(app), framework: None }
}

#[test]
fn resource_values_are_followed_and_named() {
    let res = sample();
    let v = resolve_res_value(&res, 0x7f01_0001).expect("a value");
    assert_eq!(v.type_, i32::from(TYPE_REFERENCE));
    assert_eq!(v.data, 0x7f01_0000);
    let s = resolve_res_value(&res, 0x7f01_0000).expect("a value");
    assert_eq!(s.string.as_deref(), Some("hello"));
    assert!(resolve_res_value(&res, 0x7f01_0009).is_none());
    let e = resolve_inline_attr_value(&res, TYPE_REFERENCE, 0x7f01_0001);
    assert_eq!(e.value_type, i32::from(TYPE_STRING));
    assert_eq!(e.asset_cookie, ARSC_APP_COOKIE);
    let cycle = resolve_inline_attr_value(&res, TYPE_REFERENCE, 0x7f01_0002);
    assert_eq!(cycle.value_type, i32::from(TYPE_REFERENCE));
    assert_eq!(arsc_pool_string(&res, 1, 0).as_deref(), Some("hello"));
    assert_eq!(arsc_pool_string(&res, 1, 5), None);
    assert_eq!(arsc_pool_string(&res, 2, 0), None);
    assert_eq!(
        resolve_resource_name(&res, 0x7f01_0000).as_deref(),
        Some("com.x:string/greeting")
    );
    assert_eq!(
        resolve_resource_package_name(&res, 0x7f01_0000).as_deref(),
        Some("com.x")
    );
    assert_eq!(
        resolve_resource_identifier(&res, "com.x:string/greeting", "", ""),
        0x7f01_0000
    );
    assert_eq!(
        resolve_resource_identifier(&res, "greeting", "string", "com.x"),
        0x7f01_0000
    );
    assert_eq!(
        resolve_resource_identifier(&res, "greeting", "color", "com.x"),
        0
    );
    let loaded = load_resource_value(&res, 0x7f01_0003, 0).expect("loaded");
    assert_eq!(loaded.data, 99);
}

#[test]
fn styles_are_merged_nearest_first() {
    let res = sample();
    let mut merged = HashMap::new();
    assert_eq!(merge_theme_style(&res, &mut merged, 0x7f02_0000), 2);
    assert_eq!(merged[&0x7f03_0001].data, 1, "the style's own value");
    assert_eq!(merged[&0x7f03_0002].data, 3, "an inherited value");
    assert!(!merged.contains_key(&0));

    let mut theme = Theme::new();
    theme.attrs.insert(0x7f03_0001, attr(0x10, 50, 0x7f));
    apply_theme_style(&res, &mut theme, 0x7f02_0000, false);
    assert_eq!(theme.attrs[&0x7f03_0001].data, 50, "what was there stays");
    apply_theme_style(&res, &mut theme, 0x7f02_0000, true);
    assert_eq!(theme.attrs[&0x7f03_0001].data, 1, "unless it is forced");
    assert_eq!(theme.styles, [0x7f02_0000, 0x7f02_0000]);
}

#[test]
fn themes_are_copied() {
    let mut themes = ThemeRegistry::new();
    let a = theme_registry::new_theme(&mut themes);
    let b = theme_registry::new_theme(&mut themes);
    assert_ne!(a, b);
    themes
        .get_mut(a)
        .expect("a theme")
        .attrs
        .insert(5, attr(0x10, 6, 0x7f));
    theme_registry::copy_theme(&mut themes, b, a);
    assert_eq!(themes.get(b).expect("a theme").attrs[&5].data, 6);
    let value = load_theme_attribute_value(&nothing(), &themes, b, 5).expect("a value");
    assert_eq!(value.entry.data, 6);
    assert!(load_theme_attribute_value(&nothing(), &themes, 0, 5).is_none());
    let entries = apply_style(&nothing(), &themes, b, &XmlRegistry::new(), 0, &[5, 6]);
    assert_eq!(entries[0].map(|e| e.data), Some(6));
    assert!(entries[1].is_none());
}

#[test]
fn a_document_is_walked() {
    let doc = XmlDocument {
        events: vec![
            XmlEventKind::StartNamespace(0),
            XmlEventKind::StartTag(0),
            XmlEventKind::EndTag(0),
        ],
        elements: vec![include_tag()],
        strings: vec!["pooled".to_string()],
    };
    let mut blocks = XmlRegistry::new();
    let block = xml_registry::store(&mut blocks, doc).expect("stored");
    let state = xml_registry::create_parse_state(&mut blocks, block);
    assert_eq!(state, block);
    assert_eq!(xml_registry::next(&mut blocks, state), XML_EVENT_START_TAG);
    let at = blocks.get(state).expect("live");
    assert_eq!(xml_registry::element_name(at).as_deref(), Some("include"));
    assert_eq!(xml_registry::attribute_count(at), 2);
    assert_eq!(xml_registry::attribute_index(at, "", "layout"), 1);
    assert_eq!(
        xml_registry::attribute_index(at, "", "id"),
        XML_ATTR_NOT_FOUND
    );
    assert_eq!(xml_registry::attribute_resource(at, 0), 0x0101_00d0);
    assert_eq!(xml_registry::attribute_data_type(at, 0), 1);
    assert_eq!(xml_registry::attribute_data(at, 1), 0x7f0c_00a3);
    assert_eq!(xml_registry::attribute_string_value(at, 0), None);
    assert_eq!(
        xml_registry::pooled_string(at, 0).as_deref(),
        Some("pooled")
    );
    assert_eq!(xml_registry::pooled_string(at, -1), None);
    assert_eq!(xml_registry::next(&mut blocks, state), XML_EVENT_END_TAG);
    assert_eq!(
        xml_registry::next(&mut blocks, state),
        XML_EVENT_END_DOCUMENT
    );
    assert!(xml_registry::destroy(&mut blocks, block));
    assert!(!xml_registry::destroy(&mut blocks, block));
}

#[test]
fn a_walk_past_the_end_stays_at_the_end() {
    let doc = XmlDocument { events: Vec::new(), elements: Vec::new(), strings: Vec::new() };
    let mut blocks = XmlRegistry::new();
    let block = xml_registry::store(&mut blocks, doc).expect("stored");
    assert_eq!(xml_registry::next(&mut blocks, block), XML_EVENT_END_DOCUMENT);
    assert_eq!(blocks.get(block).expect("live").cursor, 0);
    blocks.get_mut(block).expect("live").cursor = 5;
    assert_eq!(xml_registry::next(&mut blocks, block), XML_EVENT_END_DOCUMENT);
    assert_eq!(blocks.get(block).expect("live").cursor, 5);
    assert_eq!(xml_registry::create_parse_state(&mut blocks, block), block);
    assert_eq!(blocks.get(block).expect("live").cursor, 0);
}
