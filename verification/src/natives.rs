//! The native methods that the host provides: which there are, on which classes, and
//! what it means where one cannot be bound.

use vstd::prelude::*;

use crate::lifecycle::NativeGroup;
use crate::names;

verus! {

/// A native method: its name and its descriptor.
#[derive(Debug, Clone, Copy)]
pub struct NativeName {
    pub name: &'static str,
    pub signature: &'static str,
}

/// What it means where a native method cannot be bound.
#[derive(Debug, Clone, Copy, PartialEq, Eq, Structural)]
pub enum BindPolicy {
    /// All of the class are bound together, and it fails where one cannot be.
    Required,
    /// Each is bound by itself, and one that cannot be is left out.
    BestEffort,
    /// All of the class are bound together, or none, and either is well.
    Optional,
}

/// The native methods of a class.
pub struct ClassNatives {
    pub class: &'static str,
    pub policy: BindPolicy,
    pub methods: Vec<NativeName>,
}

/// The names and descriptors of methods.
pub open spec fn named(methods: Seq<NativeName>) -> Seq<(Seq<char>, Seq<char>)> {
    methods.map_values(|m: NativeName| (m.name@, m.signature@))
}

/// The class, the policy, and the names and descriptors of the methods of a class.
pub open spec fn described(natives: Seq<ClassNatives>) -> Seq<
    (Seq<char>, BindPolicy, Seq<(Seq<char>, Seq<char>)>),
> {
    natives.map_values(|c: ClassNatives| (c.class@, c.policy, named(c.methods@)))
}

/// The native methods of `android/content/Context`.
pub open spec fn context_table() -> Seq<(Seq<char>, Seq<char>)> {
    seq![
        (names::NATIVE_GET_APK_PATH_NAME@, names::NATIVE_GET_APK_PATH_SIG@),
        (names::NATIVE_UPDATE_CONFIG_NAME@, names::NATIVE_UPDATE_CONFIG_SIG@),
    ]
}

/// The native methods of `android/content/Context`.
pub fn context_natives() -> (methods: Vec<NativeName>)
    ensures
        named(methods@) == context_table(),
        methods@.len() == 2,
        methods@[0].name@ == names::NATIVE_GET_APK_PATH_NAME@ && methods@[0].signature@ == names::NATIVE_GET_APK_PATH_SIG@,
        methods@[1].name@ == names::NATIVE_UPDATE_CONFIG_NAME@ && methods@[1].signature@ == names::NATIVE_UPDATE_CONFIG_SIG@,
{
    let mut methods: Vec<NativeName> = Vec::new();
    methods.push(NativeName { name: names::NATIVE_GET_APK_PATH_NAME, signature: names::NATIVE_GET_APK_PATH_SIG });
    methods.push(NativeName { name: names::NATIVE_UPDATE_CONFIG_NAME, signature: names::NATIVE_UPDATE_CONFIG_SIG });
    assert(named(methods@) =~= context_table());
    methods
}

/// The native methods of `android/util/Log`.
pub open spec fn log_table() -> Seq<(Seq<char>, Seq<char>)> {
    seq![
        (names::PRINTLN_NATIVE_NAME@, names::PRINTLN_NATIVE_SIG@),
    ]
}

/// The native methods of `android/util/Log`.
pub fn log_natives() -> (methods: Vec<NativeName>)
    ensures
        named(methods@) == log_table(),
        methods@.len() == 1,
        methods@[0].name@ == names::PRINTLN_NATIVE_NAME@ && methods@[0].signature@ == names::PRINTLN_NATIVE_SIG@,
{
    let mut methods: Vec<NativeName> = Vec::new();
    methods.push(NativeName { name: names::PRINTLN_NATIVE_NAME, signature: names::PRINTLN_NATIVE_SIG });
    assert(named(methods@) =~= log_table());
    methods
}

/// The native methods of `android/os/Process`.
pub open spec fn process_table() -> Seq<(Seq<char>, Seq<char>)> {
    seq![
        (names::PROCESS_GET_ELAPSED_CPU_TIME_NAME@, names::PROCESS_GET_ELAPSED_CPU_TIME_SIG@),
    ]
}

/// The native methods of `android/os/Process`.
pub fn process_natives() -> (methods: Vec<NativeName>)
    ensures
        named(methods@) == process_table(),
        methods@.len() == 1,
        methods@[0].name@ == names::PROCESS_GET_ELAPSED_CPU_TIME_NAME@ && methods@[0].signature@ == names::PROCESS_GET_ELAPSED_CPU_TIME_SIG@,
{
    let mut methods: Vec<NativeName> = Vec::new();
    methods.push(NativeName { name: names::PROCESS_GET_ELAPSED_CPU_TIME_NAME, signature: names::PROCESS_GET_ELAPSED_CPU_TIME_SIG });
    assert(named(methods@) =~= process_table());
    methods
}

/// The native methods of `android/content/res/AssetManager`.
pub open spec fn asset_manager_table() -> Seq<(Seq<char>, Seq<char>)> {
    seq![
        (names::ASSET_MANAGER_INIT_NAME@, names::ASSET_MANAGER_INIT_SIG@),
        (names::ASSET_MANAGER_SET_APK_ASSETS_NAME@, names::ASSET_MANAGER_SET_APK_ASSETS_SIG@),
        (names::ASSET_MANAGER_SET_CONFIGURATION_NAME@, names::ASSET_MANAGER_SET_CONFIGURATION_SIG@),
        (names::ASSET_MANAGER_OPEN_XML_ASSET_NAME@, names::ASSET_MANAGER_OPEN_XML_ASSET_SIG@),
        (names::ASSET_MANAGER_RETRIEVE_ATTRIBUTES_NAME@, names::ASSET_MANAGER_RETRIEVE_ATTRIBUTES_SIG@),
        (names::ASSET_MANAGER_NEW_THEME_NAME@, names::ASSET_MANAGER_NEW_THEME_SIG@),
        (names::ASSET_MANAGER_APPLY_THEME_STYLE_NAME@, names::ASSET_MANAGER_APPLY_THEME_STYLE_SIG@),
        (names::ASSET_MANAGER_COPY_THEME_NAME@, names::ASSET_MANAGER_COPY_THEME_SIG@),
        (names::ASSET_MANAGER_APPLY_STYLE_NAME@, names::ASSET_MANAGER_APPLY_STYLE_SIG@),
        (names::ASSET_MANAGER_GET_RESOURCE_NAME_NAME@, names::ASSET_MANAGER_GET_RESOURCE_NAME_SIG@),
        (names::ASSET_MANAGER_GET_RESOURCE_PACKAGE_NAME_NAME@, names::ASSET_MANAGER_GET_RESOURCE_PACKAGE_NAME_SIG@),
        (names::ASSET_MANAGER_GET_RESOURCE_IDENTIFIER_NAME@, names::ASSET_MANAGER_GET_RESOURCE_IDENTIFIER_SIG@),
        (names::ASSET_MANAGER_OPEN_ASSET_NAME@, names::ASSET_MANAGER_OPEN_ASSET_SIG@),
        (names::ASSET_MANAGER_LOAD_RESOURCE_VALUE_NAME@, names::ASSET_MANAGER_LOAD_RESOURCE_VALUE_SIG@),
        (names::ASSET_MANAGER_LOAD_THEME_ATTRIBUTE_VALUE_NAME@, names::ASSET_MANAGER_LOAD_THEME_ATTRIBUTE_VALUE_SIG@),
        (names::ASSET_MANAGER_GET_POOLED_STRING_NAME@, names::ASSET_MANAGER_GET_POOLED_STRING_SIG@),
    ]
}

/// The native methods of `android/content/res/AssetManager`.
pub fn asset_manager_natives() -> (methods: Vec<NativeName>)
    ensures
        named(methods@) == asset_manager_table(),
        methods@.len() == 16,
        methods@[0].name@ == names::ASSET_MANAGER_INIT_NAME@ && methods@[0].signature@ == names::ASSET_MANAGER_INIT_SIG@,
        methods@[1].name@ == names::ASSET_MANAGER_SET_APK_ASSETS_NAME@ && methods@[1].signature@ == names::ASSET_MANAGER_SET_APK_ASSETS_SIG@,
        methods@[2].name@ == names::ASSET_MANAGER_SET_CONFIGURATION_NAME@ && methods@[2].signature@ == names::ASSET_MANAGER_SET_CONFIGURATION_SIG@,
        methods@[3].name@ == names::ASSET_MANAGER_OPEN_XML_ASSET_NAME@ && methods@[3].signature@ == names::ASSET_MANAGER_OPEN_XML_ASSET_SIG@,
        methods@[4].name@ == names::ASSET_MANAGER_RETRIEVE_ATTRIBUTES_NAME@ && methods@[4].signature@ == names::ASSET_MANAGER_RETRIEVE_ATTRIBUTES_SIG@,
        methods@[5].name@ == names::ASSET_MANAGER_NEW_THEME_NAME@ && methods@[5].signature@ == names::ASSET_MANAGER_NEW_THEME_SIG@,
        methods@[6].name@ == names::ASSET_MANAGER_APPLY_THEME_STYLE_NAME@ && methods@[6].signature@ == names::ASSET_MANAGER_APPLY_THEME_STYLE_SIG@,
        methods@[7].name@ == names::ASSET_MANAGER_COPY_THEME_NAME@ && methods@[7].signature@ == names::ASSET_MANAGER_COPY_THEME_SIG@,
        methods@[8].name@ == names::ASSET_MANAGER_APPLY_STYLE_NAME@ && methods@[8].signature@ == names::ASSET_MANAGER_APPLY_STYLE_SIG@,
        methods@[9].name@ == names::ASSET_MANAGER_GET_RESOURCE_NAME_NAME@ && methods@[9].signature@ == names::ASSET_MANAGER_GET_RESOURCE_NAME_SIG@,
        methods@[10].name@ == names::ASSET_MANAGER_GET_RESOURCE_PACKAGE_NAME_NAME@ && methods@[10].signature@ == names::ASSET_MANAGER_GET_RESOURCE_PACKAGE_NAME_SIG@,
        methods@[11].name@ == names::ASSET_MANAGER_GET_RESOURCE_IDENTIFIER_NAME@ && methods@[11].signature@ == names::ASSET_MANAGER_GET_RESOURCE_IDENTIFIER_SIG@,
        methods@[12].name@ == names::ASSET_MANAGER_OPEN_ASSET_NAME@ && methods@[12].signature@ == names::ASSET_MANAGER_OPEN_ASSET_SIG@,
        methods@[13].name@ == names::ASSET_MANAGER_LOAD_RESOURCE_VALUE_NAME@ && methods@[13].signature@ == names::ASSET_MANAGER_LOAD_RESOURCE_VALUE_SIG@,
        methods@[14].name@ == names::ASSET_MANAGER_LOAD_THEME_ATTRIBUTE_VALUE_NAME@ && methods@[14].signature@ == names::ASSET_MANAGER_LOAD_THEME_ATTRIBUTE_VALUE_SIG@,
        methods@[15].name@ == names::ASSET_MANAGER_GET_POOLED_STRING_NAME@ && methods@[15].signature@ == names::ASSET_MANAGER_GET_POOLED_STRING_SIG@,
{
    let mut methods: Vec<NativeName> = Vec::new();
    methods.push(NativeName { name: names::ASSET_MANAGER_INIT_NAME, signature: names::ASSET_MANAGER_INIT_SIG });
    methods.push(NativeName { name: names::ASSET_MANAGER_SET_APK_ASSETS_NAME, signature: names::ASSET_MANAGER_SET_APK_ASSETS_SIG });
    methods.push(NativeName { name: names::ASSET_MANAGER_SET_CONFIGURATION_NAME, signature: names::ASSET_MANAGER_SET_CONFIGURATION_SIG });
    methods.push(NativeName { name: names::ASSET_MANAGER_OPEN_XML_ASSET_NAME, signature: names::ASSET_MANAGER_OPEN_XML_ASSET_SIG });
    methods.push(NativeName { name: names::ASSET_MANAGER_RETRIEVE_ATTRIBUTES_NAME, signature: names::ASSET_MANAGER_RETRIEVE_ATTRIBUTES_SIG });
    methods.push(NativeName { name: names::ASSET_MANAGER_NEW_THEME_NAME, signature: names::ASSET_MANAGER_NEW_THEME_SIG });
    methods.push(NativeName { name: names::ASSET_MANAGER_APPLY_THEME_STYLE_NAME, signature: names::ASSET_MANAGER_APPLY_THEME_STYLE_SIG });
    methods.push(NativeName { name: names::ASSET_MANAGER_COPY_THEME_NAME, signature: names::ASSET_MANAGER_COPY_THEME_SIG });
    methods.push(NativeName { name: names::ASSET_MANAGER_APPLY_STYLE_NAME, signature: names::ASSET_MANAGER_APPLY_STYLE_SIG });
    methods.push(NativeName { name: names::ASSET_MANAGER_GET_RESOURCE_NAME_NAME, signature: names::ASSET_MANAGER_GET_RESOURCE_NAME_SIG });
    methods.push(NativeName { name: names::ASSET_MANAGER_GET_RESOURCE_PACKAGE_NAME_NAME, signature: names::ASSET_MANAGER_GET_RESOURCE_PACKAGE_NAME_SIG });
    methods.push(NativeName { name: names::ASSET_MANAGER_GET_RESOURCE_IDENTIFIER_NAME, signature: names::ASSET_MANAGER_GET_RESOURCE_IDENTIFIER_SIG });
    methods.push(NativeName { name: names::ASSET_MANAGER_OPEN_ASSET_NAME, signature: names::ASSET_MANAGER_OPEN_ASSET_SIG });
    methods.push(NativeName { name: names::ASSET_MANAGER_LOAD_RESOURCE_VALUE_NAME, signature: names::ASSET_MANAGER_LOAD_RESOURCE_VALUE_SIG });
    methods.push(NativeName { name: names::ASSET_MANAGER_LOAD_THEME_ATTRIBUTE_VALUE_NAME, signature: names::ASSET_MANAGER_LOAD_THEME_ATTRIBUTE_VALUE_SIG });
    methods.push(NativeName { name: names::ASSET_MANAGER_GET_POOLED_STRING_NAME, signature: names::ASSET_MANAGER_GET_POOLED_STRING_SIG });
    assert(named(methods@) =~= asset_manager_table());
    methods
}

/// The native methods of `android/content/res/AssetManager` that read assets.
pub open spec fn asset_stream_table() -> Seq<(Seq<char>, Seq<char>)> {
    seq![
        (names::ASSET_MANAGER_READ_ASSET_NAME@, names::ASSET_MANAGER_READ_ASSET_SIG@),
        (names::ASSET_MANAGER_READ_ASSET_CHAR_NAME@, names::ASSET_MANAGER_READ_ASSET_CHAR_SIG@),
        (names::ASSET_MANAGER_OPEN_ASSET_FD_NAME@, names::ASSET_MANAGER_OPEN_ASSET_FD_SIG@),
        (names::ASSET_MANAGER_SEEK_ASSET_NAME@, names::ASSET_MANAGER_SEEK_ASSET_SIG@),
        (names::ASSET_MANAGER_GET_ASSET_LENGTH_NAME@, names::ASSET_MANAGER_GET_ASSET_LENGTH_SIG@),
        (names::ASSET_MANAGER_GET_ASSET_REMAINING_LENGTH_NAME@, names::ASSET_MANAGER_GET_ASSET_REMAINING_LENGTH_SIG@),
        (names::ASSET_MANAGER_DESTROY_ASSET_NAME@, names::ASSET_MANAGER_DESTROY_ASSET_SIG@),
    ]
}

/// The native methods of `android/content/res/AssetManager` that read assets.
pub fn asset_stream_natives() -> (methods: Vec<NativeName>)
    ensures
        named(methods@) == asset_stream_table(),
        methods@.len() == 7,
        methods@[0].name@ == names::ASSET_MANAGER_READ_ASSET_NAME@ && methods@[0].signature@ == names::ASSET_MANAGER_READ_ASSET_SIG@,
        methods@[1].name@ == names::ASSET_MANAGER_READ_ASSET_CHAR_NAME@ && methods@[1].signature@ == names::ASSET_MANAGER_READ_ASSET_CHAR_SIG@,
        methods@[2].name@ == names::ASSET_MANAGER_OPEN_ASSET_FD_NAME@ && methods@[2].signature@ == names::ASSET_MANAGER_OPEN_ASSET_FD_SIG@,
        methods@[3].name@ == names::ASSET_MANAGER_SEEK_ASSET_NAME@ && methods@[3].signature@ == names::ASSET_MANAGER_SEEK_ASSET_SIG@,
        methods@[4].name@ == names::ASSET_MANAGER_GET_ASSET_LENGTH_NAME@ && methods@[4].signature@ == names::ASSET_MANAGER_GET_ASSET_LENGTH_SIG@,
        methods@[5].name@ == names::ASSET_MANAGER_GET_ASSET_REMAINING_LENGTH_NAME@ && methods@[5].signature@ == names::ASSET_MANAGER_GET_ASSET_REMAINING_LENGTH_SIG@,
        methods@[6].name@ == names::ASSET_MANAGER_DESTROY_ASSET_NAME@ && methods@[6].signature@ == names::ASSET_MANAGER_DESTROY_ASSET_SIG@,
{
    let mut methods: Vec<NativeName> = Vec::new();
    methods.push(NativeName { name: names::ASSET_MANAGER_READ_ASSET_NAME, signature: names::ASSET_MANAGER_READ_ASSET_SIG });
    methods.push(NativeName { name: names::ASSET_MANAGER_READ_ASSET_CHAR_NAME, signature: names::ASSET_MANAGER_READ_ASSET_CHAR_SIG });
    methods.push(NativeName { name: names::ASSET_MANAGER_OPEN_ASSET_FD_NAME, signature: names::ASSET_MANAGER_OPEN_ASSET_FD_SIG });
    methods.push(NativeName { name: names::ASSET_MANAGER_SEEK_ASSET_NAME, signature: names::ASSET_MANAGER_SEEK_ASSET_SIG });
    methods.push(NativeName { name: names::ASSET_MANAGER_GET_ASSET_LENGTH_NAME, signature: names::ASSET_MANAGER_GET_ASSET_LENGTH_SIG });
    methods.push(NativeName { name: names::ASSET_MANAGER_GET_ASSET_REMAINING_LENGTH_NAME, signature: names::ASSET_MANAGER_GET_ASSET_REMAINING_LENGTH_SIG });
    methods.push(NativeName { name: names::ASSET_MANAGER_DESTROY_ASSET_NAME, signature: names::ASSET_MANAGER_DESTROY_ASSET_SIG });
    assert(named(methods@) =~= asset_stream_table());
    methods
}

/// The native methods of `android/content/res/XmlBlock`.
pub open spec fn xml_block_table() -> Seq<(Seq<char>, Seq<char>)> {
    seq![
        (names::XML_BLOCK_CREATE_PARSE_STATE_NAME@, names::XML_BLOCK_CREATE_PARSE_STATE_SIG@),
        (names::XML_BLOCK_NEXT_NAME@, names::XML_BLOCK_NEXT_SIG@),
        (names::XML_BLOCK_DESTROY_PARSE_STATE_NAME@, names::XML_BLOCK_DESTROY_PARSE_STATE_SIG@),
        (names::XML_BLOCK_GET_NAME_NAME@, names::XML_BLOCK_GET_NAME_SIG@),
        (names::XML_BLOCK_DESTROY_NAME@, names::XML_BLOCK_DESTROY_SIG@),
        (names::XML_BLOCK_GET_ATTR_INDEX_NAME@, names::XML_BLOCK_GET_ATTR_INDEX_SIG@),
        (names::XML_BLOCK_GET_ATTR_STRING_VALUE_NAME@, names::XML_BLOCK_GET_ATTR_STRING_VALUE_SIG@),
        (names::XML_BLOCK_GET_ATTR_COUNT_NAME@, names::XML_BLOCK_GET_ATTR_COUNT_SIG@),
        (names::XML_BLOCK_GET_ATTR_RESOURCE_NAME@, names::XML_BLOCK_GET_ATTR_RESOURCE_SIG@),
        (names::XML_BLOCK_GET_ATTR_DATA_TYPE_NAME@, names::XML_BLOCK_GET_ATTR_DATA_TYPE_SIG@),
        (names::XML_BLOCK_GET_ATTR_DATA_NAME@, names::XML_BLOCK_GET_ATTR_DATA_SIG@),
        (names::XML_BLOCK_GET_LINE_NUMBER_NAME@, names::XML_BLOCK_GET_LINE_NUMBER_SIG@),
        (names::XML_BLOCK_GET_POOLED_STRING_NAME@, names::XML_BLOCK_GET_POOLED_STRING_SIG@),
    ]
}

/// The native methods of `android/content/res/XmlBlock`.
pub fn xml_block_natives() -> (methods: Vec<NativeName>)
    ensures
        named(methods@) == xml_block_table(),
        methods@.len() == 13,
        methods@[0].name@ == names::XML_BLOCK_CREATE_PARSE_STATE_NAME@ && methods@[0].signature@ == names::XML_BLOCK_CREATE_PARSE_STATE_SIG@,
        methods@[1].name@ == names::XML_BLOCK_NEXT_NAME@ && methods@[1].signature@ == names::XML_BLOCK_NEXT_SIG@,
        methods@[2].name@ == names::XML_BLOCK_DESTROY_PARSE_STATE_NAME@ && methods@[2].signature@ == names::XML_BLOCK_DESTROY_PARSE_STATE_SIG@,
        methods@[3].name@ == names::XML_BLOCK_GET_NAME_NAME@ && methods@[3].signature@ == names::XML_BLOCK_GET_NAME_SIG@,
        methods@[4].name@ == names::XML_BLOCK_DESTROY_NAME@ && methods@[4].signature@ == names::XML_BLOCK_DESTROY_SIG@,
        methods@[5].name@ == names::XML_BLOCK_GET_ATTR_INDEX_NAME@ && methods@[5].signature@ == names::XML_BLOCK_GET_ATTR_INDEX_SIG@,
        methods@[6].name@ == names::XML_BLOCK_GET_ATTR_STRING_VALUE_NAME@ && methods@[6].signature@ == names::XML_BLOCK_GET_ATTR_STRING_VALUE_SIG@,
        methods@[7].name@ == names::XML_BLOCK_GET_ATTR_COUNT_NAME@ && methods@[7].signature@ == names::XML_BLOCK_GET_ATTR_COUNT_SIG@,
        methods@[8].name@ == names::XML_BLOCK_GET_ATTR_RESOURCE_NAME@ && methods@[8].signature@ == names::XML_BLOCK_GET_ATTR_RESOURCE_SIG@,
        methods@[9].name@ == names::XML_BLOCK_GET_ATTR_DATA_TYPE_NAME@ && methods@[9].signature@ == names::XML_BLOCK_GET_ATTR_DATA_TYPE_SIG@,
        methods@[10].name@ == names::XML_BLOCK_GET_ATTR_DATA_NAME@ && methods@[10].signature@ == names::XML_BLOCK_GET_ATTR_DATA_SIG@,
        methods@[11].name@ == names::XML_BLOCK_GET_LINE_NUMBER_NAME@ && methods@[11].signature@ == names::XML_BLOCK_GET_LINE_NUMBER_SIG@,
        methods@[12].name@ == names::XML_BLOCK_GET_POOLED_STRING_NAME@ && methods@[12].signature@ == names::XML_BLOCK_GET_POOLED_STRING_SIG@,
{
    let mut methods: Vec<NativeName> = Vec::new();
    methods.push(NativeName { name: names::XML_BLOCK_CREATE_PARSE_STATE_NAME, signature: names::XML_BLOCK_CREATE_PARSE_STATE_SIG });
    methods.push(NativeName { name: names::XML_BLOCK_NEXT_NAME, signature: names::XML_BLOCK_NEXT_SIG });
    methods.push(NativeName { name: names::XML_BLOCK_DESTROY_PARSE_STATE_NAME, signature: names::XML_BLOCK_DESTROY_PARSE_STATE_SIG });
    methods.push(NativeName { name: names::XML_BLOCK_GET_NAME_NAME, signature: names::XML_BLOCK_GET_NAME_SIG });
    methods.push(NativeName { name: names::XML_BLOCK_DESTROY_NAME, signature: names::XML_BLOCK_DESTROY_SIG });
    methods.push(NativeName { name: names::XML_BLOCK_GET_ATTR_INDEX_NAME, signature: names::XML_BLOCK_GET_ATTR_INDEX_SIG });
    methods.push(NativeName { name: names::XML_BLOCK_GET_ATTR_STRING_VALUE_NAME, signature: names::XML_BLOCK_GET_ATTR_STRING_VALUE_SIG });
    methods.push(NativeName { name: names::XML_BLOCK_GET_ATTR_COUNT_NAME, signature: names::XML_BLOCK_GET_ATTR_COUNT_SIG });
    methods.push(NativeName { name: names::XML_BLOCK_GET_ATTR_RESOURCE_NAME, signature: names::XML_BLOCK_GET_ATTR_RESOURCE_SIG });
    methods.push(NativeName { name: names::XML_BLOCK_GET_ATTR_DATA_TYPE_NAME, signature: names::XML_BLOCK_GET_ATTR_DATA_TYPE_SIG });
    methods.push(NativeName { name: names::XML_BLOCK_GET_ATTR_DATA_NAME, signature: names::XML_BLOCK_GET_ATTR_DATA_SIG });
    methods.push(NativeName { name: names::XML_BLOCK_GET_LINE_NUMBER_NAME, signature: names::XML_BLOCK_GET_LINE_NUMBER_SIG });
    methods.push(NativeName { name: names::XML_BLOCK_GET_POOLED_STRING_NAME, signature: names::XML_BLOCK_GET_POOLED_STRING_SIG });
    assert(named(methods@) =~= xml_block_table());
    methods
}

/// The native methods of `android/os/Environment`.
pub open spec fn environment_table() -> Seq<(Seq<char>, Seq<char>)> {
    seq![
        (names::GET_APP_DATA_DIR_NAME@, names::GET_APP_DATA_DIR_SIG@),
    ]
}

/// The native methods of `android/os/Environment`.
pub fn environment_natives() -> (methods: Vec<NativeName>)
    ensures
        named(methods@) == environment_table(),
        methods@.len() == 1,
        methods@[0].name@ == names::GET_APP_DATA_DIR_NAME@ && methods@[0].signature@ == names::GET_APP_DATA_DIR_SIG@,
{
    let mut methods: Vec<NativeName> = Vec::new();
    methods.push(NativeName { name: names::GET_APP_DATA_DIR_NAME, signature: names::GET_APP_DATA_DIR_SIG });
    assert(named(methods@) =~= environment_table());
    methods
}

/// The native methods of `android/os/SystemClock`.
pub open spec fn system_clock_table() -> Seq<(Seq<char>, Seq<char>)> {
    seq![
        (names::ELAPSED_REALTIME_NAME@, names::ELAPSED_REALTIME_SIG@),
        (names::ELAPSED_REALTIME_NANOS_NAME@, names::ELAPSED_REALTIME_NANOS_SIG@),
        (names::UPTIME_MILLIS_NAME@, names::UPTIME_MILLIS_SIG@),
    ]
}

/// The native methods of `android/os/SystemClock`.
pub fn system_clock_natives() -> (methods: Vec<NativeName>)
    ensures
        named(methods@) == system_clock_table(),
        methods@.len() == 3,
        methods@[0].name@ == names::ELAPSED_REALTIME_NAME@ && methods@[0].signature@ == names::ELAPSED_REALTIME_SIG@,
        methods@[1].name@ == names::ELAPSED_REALTIME_NANOS_NAME@ && methods@[1].signature@ == names::ELAPSED_REALTIME_NANOS_SIG@,
        methods@[2].name@ == names::UPTIME_MILLIS_NAME@ && methods@[2].signature@ == names::UPTIME_MILLIS_SIG@,
{
    let mut methods: Vec<NativeName> = Vec::new();
    methods.push(NativeName { name: names::ELAPSED_REALTIME_NAME, signature: names::ELAPSED_REALTIME_SIG });
    methods.push(NativeName { name: names::ELAPSED_REALTIME_NANOS_NAME, signature: names::ELAPSED_REALTIME_NANOS_SIG });
    methods.push(NativeName { name: names::UPTIME_MILLIS_NAME, signature: names::UPTIME_MILLIS_SIG });
    assert(named(methods@) =~= system_clock_table());
    methods
}

/// The native methods of `android/os/MessageQueue`.
pub open spec fn message_queue_table() -> Seq<(Seq<char>, Seq<char>)> {
    seq![
        (names::MESSAGE_QUEUE_NATIVE_INIT_NAME@, names::MESSAGE_QUEUE_NATIVE_INIT_SIG@),
        (names::MESSAGE_QUEUE_NATIVE_DESTROY_NAME@, names::MESSAGE_QUEUE_NATIVE_DESTROY_SIG@),
        (names::MESSAGE_QUEUE_NATIVE_IS_IDLING_NAME@, names::MESSAGE_QUEUE_NATIVE_IS_IDLING_SIG@),
        (names::MESSAGE_QUEUE_NATIVE_POLL_ONCE_NAME@, names::MESSAGE_QUEUE_NATIVE_POLL_ONCE_SIG@),
        (names::MESSAGE_QUEUE_NATIVE_WAKE_NAME@, names::MESSAGE_QUEUE_NATIVE_WAKE_SIG@),
    ]
}

/// The native methods of `android/os/MessageQueue`.
pub fn message_queue_natives() -> (methods: Vec<NativeName>)
    ensures
        named(methods@) == message_queue_table(),
        methods@.len() == 5,
        methods@[0].name@ == names::MESSAGE_QUEUE_NATIVE_INIT_NAME@ && methods@[0].signature@ == names::MESSAGE_QUEUE_NATIVE_INIT_SIG@,
        methods@[1].name@ == names::MESSAGE_QUEUE_NATIVE_DESTROY_NAME@ && methods@[1].signature@ == names::MESSAGE_QUEUE_NATIVE_DESTROY_SIG@,
        methods@[2].name@ == names::MESSAGE_QUEUE_NATIVE_IS_IDLING_NAME@ && methods@[2].signature@ == names::MESSAGE_QUEUE_NATIVE_IS_IDLING_SIG@,
        methods@[3].name@ == names::MESSAGE_QUEUE_NATIVE_POLL_ONCE_NAME@ && methods@[3].signature@ == names::MESSAGE_QUEUE_NATIVE_POLL_ONCE_SIG@,
        methods@[4].name@ == names::MESSAGE_QUEUE_NATIVE_WAKE_NAME@ && methods@[4].signature@ == names::MESSAGE_QUEUE_NATIVE_WAKE_SIG@,
{
    let mut methods: Vec<NativeName> = Vec::new();
    methods.push(NativeName { name: names::MESSAGE_QUEUE_NATIVE_INIT_NAME, signature: names::MESSAGE_QUEUE_NATIVE_INIT_SIG });
    methods.push(NativeName { name: names::MESSAGE_QUEUE_NATIVE_DESTROY_NAME, signature: names::MESSAGE_QUEUE_NATIVE_DESTROY_SIG });
    methods.push(NativeName { name: names::MESSAGE_QUEUE_NATIVE_IS_IDLING_NAME, signature: names::MESSAGE_QUEUE_NATIVE_IS_IDLING_SIG });
    methods.push(NativeName { name: names::MESSAGE_QUEUE_NATIVE_POLL_ONCE_NAME, signature: names::MESSAGE_QUEUE_NATIVE_POLL_ONCE_SIG });
    methods.push(NativeName { name: names::MESSAGE_QUEUE_NATIVE_WAKE_NAME, signature: names::MESSAGE_QUEUE_NATIVE_WAKE_SIG });
    assert(named(methods@) =~= message_queue_table());
    methods
}

/// The native methods of `android/hardware/SensorManager`.
pub open spec fn sensor_manager_table() -> Seq<(Seq<char>, Seq<char>)> {
    seq![
        (names::SENSOR_MANAGER_REGISTER_NAME@, names::SENSOR_MANAGER_REGISTER_SIG@),
    ]
}

/// The native methods of `android/hardware/SensorManager`.
pub fn sensor_manager_natives() -> (methods: Vec<NativeName>)
    ensures
        named(methods@) == sensor_manager_table(),
        methods@.len() == 1,
        methods@[0].name@ == names::SENSOR_MANAGER_REGISTER_NAME@ && methods@[0].signature@ == names::SENSOR_MANAGER_REGISTER_SIG@,
{
    let mut methods: Vec<NativeName> = Vec::new();
    methods.push(NativeName { name: names::SENSOR_MANAGER_REGISTER_NAME, signature: names::SENSOR_MANAGER_REGISTER_SIG });
    assert(named(methods@) =~= sensor_manager_table());
    methods
}

/// The native methods of `android/net/ConnectivityManager`.
pub open spec fn connectivity_table() -> Seq<(Seq<char>, Seq<char>)> {
    seq![
        (names::CM_REGISTER_NETWORK_CALLBACK_NAME@, names::CM_REGISTER_NETWORK_CALLBACK_SIG@),
        (names::CM_IS_ACTIVE_NETWORK_METERED_NAME@, names::CM_IS_ACTIVE_NETWORK_METERED_SIG@),
        (names::CM_NATIVE_GET_NETWORK_AVAILABLE_NAME@, names::CM_NATIVE_GET_NETWORK_AVAILABLE_SIG@),
    ]
}

/// The native methods of `android/net/ConnectivityManager`.
pub fn connectivity_natives() -> (methods: Vec<NativeName>)
    ensures
        named(methods@) == connectivity_table(),
        methods@.len() == 3,
        methods@[0].name@ == names::CM_REGISTER_NETWORK_CALLBACK_NAME@ && methods@[0].signature@ == names::CM_REGISTER_NETWORK_CALLBACK_SIG@,
        methods@[1].name@ == names::CM_IS_ACTIVE_NETWORK_METERED_NAME@ && methods@[1].signature@ == names::CM_IS_ACTIVE_NETWORK_METERED_SIG@,
        methods@[2].name@ == names::CM_NATIVE_GET_NETWORK_AVAILABLE_NAME@ && methods@[2].signature@ == names::CM_NATIVE_GET_NETWORK_AVAILABLE_SIG@,
{
    let mut methods: Vec<NativeName> = Vec::new();
    methods.push(NativeName { name: names::CM_REGISTER_NETWORK_CALLBACK_NAME, signature: names::CM_REGISTER_NETWORK_CALLBACK_SIG });
    methods.push(NativeName { name: names::CM_IS_ACTIVE_NETWORK_METERED_NAME, signature: names::CM_IS_ACTIVE_NETWORK_METERED_SIG });
    methods.push(NativeName { name: names::CM_NATIVE_GET_NETWORK_AVAILABLE_NAME, signature: names::CM_NATIVE_GET_NETWORK_AVAILABLE_SIG });
    assert(named(methods@) =~= connectivity_table());
    methods
}

/// The native methods of `android/app/ActivityManager`.
pub open spec fn activity_manager_memory_table() -> Seq<(Seq<char>, Seq<char>)> {
    seq![
        (names::AM_NATIVE_FILL_MEMORY_INFO_NAME@, names::AM_NATIVE_FILL_MEMORY_INFO_SIG@),
        (names::AM_NATIVE_GET_MEMORY_CLASS_NAME@, names::AM_NATIVE_GET_MEMORY_CLASS_SIG@),
        (names::AM_NATIVE_GET_LARGE_MEMORY_CLASS_NAME@, names::AM_NATIVE_GET_LARGE_MEMORY_CLASS_SIG@),
        (names::AM_NATIVE_IS_LOW_RAM_DEVICE_NAME@, names::AM_NATIVE_IS_LOW_RAM_DEVICE_SIG@),
    ]
}

/// The native methods of `android/app/ActivityManager`.
pub fn activity_manager_memory_natives() -> (methods: Vec<NativeName>)
    ensures
        named(methods@) == activity_manager_memory_table(),
        methods@.len() == 4,
        methods@[0].name@ == names::AM_NATIVE_FILL_MEMORY_INFO_NAME@ && methods@[0].signature@ == names::AM_NATIVE_FILL_MEMORY_INFO_SIG@,
        methods@[1].name@ == names::AM_NATIVE_GET_MEMORY_CLASS_NAME@ && methods@[1].signature@ == names::AM_NATIVE_GET_MEMORY_CLASS_SIG@,
        methods@[2].name@ == names::AM_NATIVE_GET_LARGE_MEMORY_CLASS_NAME@ && methods@[2].signature@ == names::AM_NATIVE_GET_LARGE_MEMORY_CLASS_SIG@,
        methods@[3].name@ == names::AM_NATIVE_IS_LOW_RAM_DEVICE_NAME@ && methods@[3].signature@ == names::AM_NATIVE_IS_LOW_RAM_DEVICE_SIG@,
{
    let mut methods: Vec<NativeName> = Vec::new();
    methods.push(NativeName { name: names::AM_NATIVE_FILL_MEMORY_INFO_NAME, signature: names::AM_NATIVE_FILL_MEMORY_INFO_SIG });
    methods.push(NativeName { name: names::AM_NATIVE_GET_MEMORY_CLASS_NAME, signature: names::AM_NATIVE_GET_MEMORY_CLASS_SIG });
    methods.push(NativeName { name: names::AM_NATIVE_GET_LARGE_MEMORY_CLASS_NAME, signature: names::AM_NATIVE_GET_LARGE_MEMORY_CLASS_SIG });
    methods.push(NativeName { name: names::AM_NATIVE_IS_LOW_RAM_DEVICE_NAME, signature: names::AM_NATIVE_IS_LOW_RAM_DEVICE_SIG });
    assert(named(methods@) =~= activity_manager_memory_table());
    methods
}

/// The native methods of `android/os/Vibrator`.
pub open spec fn vibrator_table() -> Seq<(Seq<char>, Seq<char>)> {
    seq![
        (names::VIBRATOR_NATIVE_CONSTRUCTOR_NAME@, names::VIBRATOR_NATIVE_CONSTRUCTOR_SIG@),
        (names::VIBRATOR_NATIVE_VIBRATE_NAME@, names::VIBRATOR_NATIVE_VIBRATE_SIG@),
    ]
}

/// The native methods of `android/os/Vibrator`.
pub fn vibrator_natives() -> (methods: Vec<NativeName>)
    ensures
        named(methods@) == vibrator_table(),
        methods@.len() == 2,
        methods@[0].name@ == names::VIBRATOR_NATIVE_CONSTRUCTOR_NAME@ && methods@[0].signature@ == names::VIBRATOR_NATIVE_CONSTRUCTOR_SIG@,
        methods@[1].name@ == names::VIBRATOR_NATIVE_VIBRATE_NAME@ && methods@[1].signature@ == names::VIBRATOR_NATIVE_VIBRATE_SIG@,
{
    let mut methods: Vec<NativeName> = Vec::new();
    methods.push(NativeName { name: names::VIBRATOR_NATIVE_CONSTRUCTOR_NAME, signature: names::VIBRATOR_NATIVE_CONSTRUCTOR_SIG });
    methods.push(NativeName { name: names::VIBRATOR_NATIVE_VIBRATE_NAME, signature: names::VIBRATOR_NATIVE_VIBRATE_SIG });
    assert(named(methods@) =~= vibrator_table());
    methods
}

/// The native methods of `android/app/Activity`.
pub open spec fn activity_table() -> Seq<(Seq<char>, Seq<char>)> {
    seq![
        (names::ACTIVITY_NATIVE_START_ACTIVITY_NAME@, names::ACTIVITY_NATIVE_START_ACTIVITY_SIG@),
        (names::ACTIVITY_NATIVE_FINISH_NAME@, names::ACTIVITY_NATIVE_FINISH_SIG@),
        (names::ACTIVITY_NATIVE_RESUME_ACTIVITY_NAME@, names::ACTIVITY_NATIVE_RESUME_ACTIVITY_SIG@),
        (names::ACTIVITY_IS_IN_MULTI_WINDOW_MODE_NAME@, names::ACTIVITY_IS_IN_MULTI_WINDOW_MODE_SIG@),
        (names::ACTIVITY_IS_TASK_ROOT_NAME@, names::ACTIVITY_IS_TASK_ROOT_SIG@),
    ]
}

/// The native methods of `android/app/Activity`.
pub fn activity_natives() -> (methods: Vec<NativeName>)
    ensures
        named(methods@) == activity_table(),
        methods@.len() == 5,
        methods@[0].name@ == names::ACTIVITY_NATIVE_START_ACTIVITY_NAME@ && methods@[0].signature@ == names::ACTIVITY_NATIVE_START_ACTIVITY_SIG@,
        methods@[1].name@ == names::ACTIVITY_NATIVE_FINISH_NAME@ && methods@[1].signature@ == names::ACTIVITY_NATIVE_FINISH_SIG@,
        methods@[2].name@ == names::ACTIVITY_NATIVE_RESUME_ACTIVITY_NAME@ && methods@[2].signature@ == names::ACTIVITY_NATIVE_RESUME_ACTIVITY_SIG@,
        methods@[3].name@ == names::ACTIVITY_IS_IN_MULTI_WINDOW_MODE_NAME@ && methods@[3].signature@ == names::ACTIVITY_IS_IN_MULTI_WINDOW_MODE_SIG@,
        methods@[4].name@ == names::ACTIVITY_IS_TASK_ROOT_NAME@ && methods@[4].signature@ == names::ACTIVITY_IS_TASK_ROOT_SIG@,
{
    let mut methods: Vec<NativeName> = Vec::new();
    methods.push(NativeName { name: names::ACTIVITY_NATIVE_START_ACTIVITY_NAME, signature: names::ACTIVITY_NATIVE_START_ACTIVITY_SIG });
    methods.push(NativeName { name: names::ACTIVITY_NATIVE_FINISH_NAME, signature: names::ACTIVITY_NATIVE_FINISH_SIG });
    methods.push(NativeName { name: names::ACTIVITY_NATIVE_RESUME_ACTIVITY_NAME, signature: names::ACTIVITY_NATIVE_RESUME_ACTIVITY_SIG });
    methods.push(NativeName { name: names::ACTIVITY_IS_IN_MULTI_WINDOW_MODE_NAME, signature: names::ACTIVITY_IS_IN_MULTI_WINDOW_MODE_SIG });
    methods.push(NativeName { name: names::ACTIVITY_IS_TASK_ROOT_NAME, signature: names::ACTIVITY_IS_TASK_ROOT_SIG });
    assert(named(methods@) =~= activity_table());
    methods
}

/// The native methods of `android/view/View`.
pub open spec fn view_table() -> Seq<(Seq<char>, Seq<char>)> {
    seq![
        (names::VIEW_NATIVE_CONSTRUCTOR_NAME@, names::VIEW_NATIVE_CONSTRUCTOR_SIG@),
        (names::VIEW_NATIVE_SET_PADDING_NAME@, names::VIEW_NATIVE_SET_PADDING_SIG@),
        (names::VIEW_NATIVE_SET_LAYOUT_PARAMS_NAME@, names::VIEW_NATIVE_SET_LAYOUT_PARAMS_SIG@),
        (names::VIEW_NATIVE_REQUEST_LAYOUT_NAME@, names::VIEW_NATIVE_REQUEST_LAYOUT_SIG@),
        (names::VIEW_NATIVE_SET_BACKGROUND_DRAWABLE_NAME@, names::VIEW_NATIVE_SET_BACKGROUND_DRAWABLE_SIG@),
        (names::VIEW_NATIVE_SET_VISIBILITY_NAME@, names::VIEW_NATIVE_SET_VISIBILITY_SIG@),
        (names::VIEW_SET_ON_CLICK_LISTENER_NAME@, names::VIEW_SET_ON_CLICK_LISTENER_SIG@),
        (names::VIEW_SET_ON_TOUCH_LISTENER_NAME@, names::VIEW_SET_ON_TOUCH_LISTENER_SIG@),
        (names::VIEW_SET_ON_LONG_CLICK_LISTENER_NAME@, names::VIEW_SET_ON_LONG_CLICK_LISTENER_SIG@),
        (names::VIEW_SET_BACKGROUND_COLOR_NAME@, names::VIEW_SET_BACKGROUND_COLOR_SIG@),
        (names::VIEW_NATIVE_SET_FULLSCREEN_NAME@, names::VIEW_NATIVE_SET_FULLSCREEN_SIG@),
        (names::VIEW_NATIVE_GET_WINDOW_NAME@, names::VIEW_NATIVE_GET_WINDOW_SIG@),
        (names::VIEW_NATIVE_DESTRUCTOR_NAME@, names::VIEW_NATIVE_DESTRUCTOR_SIG@),
        (names::VIEW_GET_WINDOW_VISIBLE_DISPLAY_FRAME_NAME@, names::VIEW_GET_WINDOW_VISIBLE_DISPLAY_FRAME_SIG@),
        (names::VIEW_NATIVE_IS_ATTACHED_TO_WINDOW_NAME@, names::VIEW_NATIVE_IS_ATTACHED_TO_WINDOW_SIG@),
        (names::VIEW_NATIVE_GET_GLOBAL_VISIBLE_RECT_NAME@, names::VIEW_NATIVE_GET_GLOBAL_VISIBLE_RECT_SIG@),
        (names::VIEW_NATIVE_REQUEST_FOCUS_NAME@, names::VIEW_NATIVE_REQUEST_FOCUS_SIG@),
        (names::VIEW_NATIVE_LAYOUT_NAME@, names::VIEW_NATIVE_LAYOUT_SIG@),
        (names::VIEW_NATIVE_IS_FOCUSED_NAME@, names::VIEW_NATIVE_IS_FOCUSED_SIG@),
        (names::VIEW_NATIVE_INVALIDATE_NAME@, names::VIEW_NATIVE_INVALIDATE_SIG@),
        (names::VIEW_NATIVE_KEEP_SCREEN_ON_NAME@, names::VIEW_NATIVE_KEEP_SCREEN_ON_SIG@),
        (names::VIEW_NATIVE_ADD_CLASS_NAME@, names::VIEW_NATIVE_ADD_CLASS_SIG@),
        (names::VIEW_NATIVE_REMOVE_CLASSES_NAME@, names::VIEW_NATIVE_REMOVE_CLASSES_SIG@),
        (names::VIEW_NATIVE_DRAW_BACKGROUND_NAME@, names::VIEW_NATIVE_DRAW_BACKGROUND_SIG@),
        (names::VIEW_NATIVE_DRAW_CONTENT_NAME@, names::VIEW_NATIVE_DRAW_CONTENT_SIG@),
        (names::VIEW_NATIVE_QUEUE_ALLOCATE_NAME@, names::VIEW_NATIVE_QUEUE_ALLOCATE_SIG@),
        (names::VIEW_NATIVE_MEASURE_NAME@, names::VIEW_NATIVE_MEASURE_SIG@),
    ]
}

/// The native methods of `android/view/View`.
pub fn view_natives() -> (methods: Vec<NativeName>)
    ensures
        named(methods@) == view_table(),
        methods@.len() == 27,
        methods@[0].name@ == names::VIEW_NATIVE_CONSTRUCTOR_NAME@ && methods@[0].signature@ == names::VIEW_NATIVE_CONSTRUCTOR_SIG@,
        methods@[1].name@ == names::VIEW_NATIVE_SET_PADDING_NAME@ && methods@[1].signature@ == names::VIEW_NATIVE_SET_PADDING_SIG@,
        methods@[2].name@ == names::VIEW_NATIVE_SET_LAYOUT_PARAMS_NAME@ && methods@[2].signature@ == names::VIEW_NATIVE_SET_LAYOUT_PARAMS_SIG@,
        methods@[3].name@ == names::VIEW_NATIVE_REQUEST_LAYOUT_NAME@ && methods@[3].signature@ == names::VIEW_NATIVE_REQUEST_LAYOUT_SIG@,
        methods@[4].name@ == names::VIEW_NATIVE_SET_BACKGROUND_DRAWABLE_NAME@ && methods@[4].signature@ == names::VIEW_NATIVE_SET_BACKGROUND_DRAWABLE_SIG@,
        methods@[5].name@ == names::VIEW_NATIVE_SET_VISIBILITY_NAME@ && methods@[5].signature@ == names::VIEW_NATIVE_SET_VISIBILITY_SIG@,
        methods@[6].name@ == names::VIEW_SET_ON_CLICK_LISTENER_NAME@ && methods@[6].signature@ == names::VIEW_SET_ON_CLICK_LISTENER_SIG@,
        methods@[7].name@ == names::VIEW_SET_ON_TOUCH_LISTENER_NAME@ && methods@[7].signature@ == names::VIEW_SET_ON_TOUCH_LISTENER_SIG@,
        methods@[8].name@ == names::VIEW_SET_ON_LONG_CLICK_LISTENER_NAME@ && methods@[8].signature@ == names::VIEW_SET_ON_LONG_CLICK_LISTENER_SIG@,
        methods@[9].name@ == names::VIEW_SET_BACKGROUND_COLOR_NAME@ && methods@[9].signature@ == names::VIEW_SET_BACKGROUND_COLOR_SIG@,
        methods@[10].name@ == names::VIEW_NATIVE_SET_FULLSCREEN_NAME@ && methods@[10].signature@ == names::VIEW_NATIVE_SET_FULLSCREEN_SIG@,
        methods@[11].name@ == names::VIEW_NATIVE_GET_WINDOW_NAME@ && methods@[11].signature@ == names::VIEW_NATIVE_GET_WINDOW_SIG@,
        methods@[12].name@ == names::VIEW_NATIVE_DESTRUCTOR_NAME@ && methods@[12].signature@ == names::VIEW_NATIVE_DESTRUCTOR_SIG@,
        methods@[13].name@ == names::VIEW_GET_WINDOW_VISIBLE_DISPLAY_FRAME_NAME@ && methods@[13].signature@ == names::VIEW_GET_WINDOW_VISIBLE_DISPLAY_FRAME_SIG@,
        methods@[14].name@ == names::VIEW_NATIVE_IS_ATTACHED_TO_WINDOW_NAME@ && methods@[14].signature@ == names::VIEW_NATIVE_IS_ATTACHED_TO_WINDOW_SIG@,
        methods@[15].name@ == names::VIEW_NATIVE_GET_GLOBAL_VISIBLE_RECT_NAME@ && methods@[15].signature@ == names::VIEW_NATIVE_GET_GLOBAL_VISIBLE_RECT_SIG@,
        methods@[16].name@ == names::VIEW_NATIVE_REQUEST_FOCUS_NAME@ && methods@[16].signature@ == names::VIEW_NATIVE_REQUEST_FOCUS_SIG@,
        methods@[17].name@ == names::VIEW_NATIVE_LAYOUT_NAME@ && methods@[17].signature@ == names::VIEW_NATIVE_LAYOUT_SIG@,
        methods@[18].name@ == names::VIEW_NATIVE_IS_FOCUSED_NAME@ && methods@[18].signature@ == names::VIEW_NATIVE_IS_FOCUSED_SIG@,
        methods@[19].name@ == names::VIEW_NATIVE_INVALIDATE_NAME@ && methods@[19].signature@ == names::VIEW_NATIVE_INVALIDATE_SIG@,
        methods@[20].name@ == names::VIEW_NATIVE_KEEP_SCREEN_ON_NAME@ && methods@[20].signature@ == names::VIEW_NATIVE_KEEP_SCREEN_ON_SIG@,
        methods@[21].name@ == names::VIEW_NATIVE_ADD_CLASS_NAME@ && methods@[21].signature@ == names::VIEW_NATIVE_ADD_CLASS_SIG@,
        methods@[22].name@ == names::VIEW_NATIVE_REMOVE_CLASSES_NAME@ && methods@[22].signature@ == names::VIEW_NATIVE_REMOVE_CLASSES_SIG@,
        methods@[23].name@ == names::VIEW_NATIVE_DRAW_BACKGROUND_NAME@ && methods@[23].signature@ == names::VIEW_NATIVE_DRAW_BACKGROUND_SIG@,
        methods@[24].name@ == names::VIEW_NATIVE_DRAW_CONTENT_NAME@ && methods@[24].signature@ == names::VIEW_NATIVE_DRAW_CONTENT_SIG@,
        methods@[25].name@ == names::VIEW_NATIVE_QUEUE_ALLOCATE_NAME@ && methods@[25].signature@ == names::VIEW_NATIVE_QUEUE_ALLOCATE_SIG@,
        methods@[26].name@ == names::VIEW_NATIVE_MEASURE_NAME@ && methods@[26].signature@ == names::VIEW_NATIVE_MEASURE_SIG@,
{
    let mut methods: Vec<NativeName> = Vec::new();
    methods.push(NativeName { name: names::VIEW_NATIVE_CONSTRUCTOR_NAME, signature: names::VIEW_NATIVE_CONSTRUCTOR_SIG });
    methods.push(NativeName { name: names::VIEW_NATIVE_SET_PADDING_NAME, signature: names::VIEW_NATIVE_SET_PADDING_SIG });
    methods.push(NativeName { name: names::VIEW_NATIVE_SET_LAYOUT_PARAMS_NAME, signature: names::VIEW_NATIVE_SET_LAYOUT_PARAMS_SIG });
    methods.push(NativeName { name: names::VIEW_NATIVE_REQUEST_LAYOUT_NAME, signature: names::VIEW_NATIVE_REQUEST_LAYOUT_SIG });
    methods.push(NativeName { name: names::VIEW_NATIVE_SET_BACKGROUND_DRAWABLE_NAME, signature: names::VIEW_NATIVE_SET_BACKGROUND_DRAWABLE_SIG });
    methods.push(NativeName { name: names::VIEW_NATIVE_SET_VISIBILITY_NAME, signature: names::VIEW_NATIVE_SET_VISIBILITY_SIG });
    methods.push(NativeName { name: names::VIEW_SET_ON_CLICK_LISTENER_NAME, signature: names::VIEW_SET_ON_CLICK_LISTENER_SIG });
    methods.push(NativeName { name: names::VIEW_SET_ON_TOUCH_LISTENER_NAME, signature: names::VIEW_SET_ON_TOUCH_LISTENER_SIG });
    methods.push(NativeName { name: names::VIEW_SET_ON_LONG_CLICK_LISTENER_NAME, signature: names::VIEW_SET_ON_LONG_CLICK_LISTENER_SIG });
    methods.push(NativeName { name: names::VIEW_SET_BACKGROUND_COLOR_NAME, signature: names::VIEW_SET_BACKGROUND_COLOR_SIG });
    methods.push(NativeName { name: names::VIEW_NATIVE_SET_FULLSCREEN_NAME, signature: names::VIEW_NATIVE_SET_FULLSCREEN_SIG });
    methods.push(NativeName { name: names::VIEW_NATIVE_GET_WINDOW_NAME, signature: names::VIEW_NATIVE_GET_WINDOW_SIG });
    methods.push(NativeName { name: names::VIEW_NATIVE_DESTRUCTOR_NAME, signature: names::VIEW_NATIVE_DESTRUCTOR_SIG });
    methods.push(NativeName { name: names::VIEW_GET_WINDOW_VISIBLE_DISPLAY_FRAME_NAME, signature: names::VIEW_GET_WINDOW_VISIBLE_DISPLAY_FRAME_SIG });
    methods.push(NativeName { name: names::VIEW_NATIVE_IS_ATTACHED_TO_WINDOW_NAME, signature: names::VIEW_NATIVE_IS_ATTACHED_TO_WINDOW_SIG });
    methods.push(NativeName { name: names::VIEW_NATIVE_GET_GLOBAL_VISIBLE_RECT_NAME, signature: names::VIEW_NATIVE_GET_GLOBAL_VISIBLE_RECT_SIG });
    methods.push(NativeName { name: names::VIEW_NATIVE_REQUEST_FOCUS_NAME, signature: names::VIEW_NATIVE_REQUEST_FOCUS_SIG });
    methods.push(NativeName { name: names::VIEW_NATIVE_LAYOUT_NAME, signature: names::VIEW_NATIVE_LAYOUT_SIG });
    methods.push(NativeName { name: names::VIEW_NATIVE_IS_FOCUSED_NAME, signature: names::VIEW_NATIVE_IS_FOCUSED_SIG });
    methods.push(NativeName { name: names::VIEW_NATIVE_INVALIDATE_NAME, signature: names::VIEW_NATIVE_INVALIDATE_SIG });
    methods.push(NativeName { name: names::VIEW_NATIVE_KEEP_SCREEN_ON_NAME, signature: names::VIEW_NATIVE_KEEP_SCREEN_ON_SIG });
    methods.push(NativeName { name: names::VIEW_NATIVE_ADD_CLASS_NAME, signature: names::VIEW_NATIVE_ADD_CLASS_SIG });
    methods.push(NativeName { name: names::VIEW_NATIVE_REMOVE_CLASSES_NAME, signature: names::VIEW_NATIVE_REMOVE_CLASSES_SIG });
    methods.push(NativeName { name: names::VIEW_NATIVE_DRAW_BACKGROUND_NAME, signature: names::VIEW_NATIVE_DRAW_BACKGROUND_SIG });
    methods.push(NativeName { name: names::VIEW_NATIVE_DRAW_CONTENT_NAME, signature: names::VIEW_NATIVE_DRAW_CONTENT_SIG });
    methods.push(NativeName { name: names::VIEW_NATIVE_QUEUE_ALLOCATE_NAME, signature: names::VIEW_NATIVE_QUEUE_ALLOCATE_SIG });
    methods.push(NativeName { name: names::VIEW_NATIVE_MEASURE_NAME, signature: names::VIEW_NATIVE_MEASURE_SIG });
    assert(named(methods@) =~= view_table());
    methods
}

/// The native methods of `android/view/ViewTreeObserver`.
pub open spec fn view_tree_observer_table() -> Seq<(Seq<char>, Seq<char>)> {
    seq![
        (names::VIEW_TREE_OBSERVER_SET_HAVE_LISTENERS_NAME@, names::VIEW_TREE_OBSERVER_SET_HAVE_LISTENERS_SIG@),
    ]
}

/// The native methods of `android/view/ViewTreeObserver`.
pub fn view_tree_observer_natives() -> (methods: Vec<NativeName>)
    ensures
        named(methods@) == view_tree_observer_table(),
        methods@.len() == 1,
        methods@[0].name@ == names::VIEW_TREE_OBSERVER_SET_HAVE_LISTENERS_NAME@ && methods@[0].signature@ == names::VIEW_TREE_OBSERVER_SET_HAVE_LISTENERS_SIG@,
{
    let mut methods: Vec<NativeName> = Vec::new();
    methods.push(NativeName { name: names::VIEW_TREE_OBSERVER_SET_HAVE_LISTENERS_NAME, signature: names::VIEW_TREE_OBSERVER_SET_HAVE_LISTENERS_SIG });
    assert(named(methods@) =~= view_tree_observer_table());
    methods
}

/// The native methods of `android/view/inputmethod/InputMethodManager`.
pub open spec fn input_method_manager_table() -> Seq<(Seq<char>, Seq<char>)> {
    seq![
        (names::IMM_NATIVE_INIT_NAME@, names::IMM_NATIVE_INIT_SIG@),
        (names::IMM_NATIVE_HIDE_SOFT_INPUT_NAME@, names::IMM_NATIVE_HIDE_SOFT_INPUT_SIG@),
        (names::IMM_NATIVE_SHOW_SOFT_INPUT_NAME@, names::IMM_NATIVE_SHOW_SOFT_INPUT_SIG@),
    ]
}

/// The native methods of `android/view/inputmethod/InputMethodManager`.
pub fn input_method_manager_natives() -> (methods: Vec<NativeName>)
    ensures
        named(methods@) == input_method_manager_table(),
        methods@.len() == 3,
        methods@[0].name@ == names::IMM_NATIVE_INIT_NAME@ && methods@[0].signature@ == names::IMM_NATIVE_INIT_SIG@,
        methods@[1].name@ == names::IMM_NATIVE_HIDE_SOFT_INPUT_NAME@ && methods@[1].signature@ == names::IMM_NATIVE_HIDE_SOFT_INPUT_SIG@,
        methods@[2].name@ == names::IMM_NATIVE_SHOW_SOFT_INPUT_NAME@ && methods@[2].signature@ == names::IMM_NATIVE_SHOW_SOFT_INPUT_SIG@,
{
    let mut methods: Vec<NativeName> = Vec::new();
    methods.push(NativeName { name: names::IMM_NATIVE_INIT_NAME, signature: names::IMM_NATIVE_INIT_SIG });
    methods.push(NativeName { name: names::IMM_NATIVE_HIDE_SOFT_INPUT_NAME, signature: names::IMM_NATIVE_HIDE_SOFT_INPUT_SIG });
    methods.push(NativeName { name: names::IMM_NATIVE_SHOW_SOFT_INPUT_NAME, signature: names::IMM_NATIVE_SHOW_SOFT_INPUT_SIG });
    assert(named(methods@) =~= input_method_manager_table());
    methods
}

/// The native methods of `android/app/Dialog`.
pub open spec fn dialog_table() -> Seq<(Seq<char>, Seq<char>)> {
    seq![
        (names::DIALOG_NATIVE_INIT_NAME@, names::DIALOG_NATIVE_INIT_SIG@),
    ]
}

/// The native methods of `android/app/Dialog`.
pub fn dialog_natives() -> (methods: Vec<NativeName>)
    ensures
        named(methods@) == dialog_table(),
        methods@.len() == 1,
        methods@[0].name@ == names::DIALOG_NATIVE_INIT_NAME@ && methods@[0].signature@ == names::DIALOG_NATIVE_INIT_SIG@,
{
    let mut methods: Vec<NativeName> = Vec::new();
    methods.push(NativeName { name: names::DIALOG_NATIVE_INIT_NAME, signature: names::DIALOG_NATIVE_INIT_SIG });
    assert(named(methods@) =~= dialog_table());
    methods
}

/// The native methods of `android/view/Window`.
pub open spec fn window_table() -> Seq<(Seq<char>, Seq<char>)> {
    seq![
        (names::WINDOW_SET_JOBJECT_NAME@, names::WINDOW_SET_JOBJECT_SIG@),
        (names::WINDOW_SET_TITLE_NAME@, names::WINDOW_SET_TITLE_SIG@),
        (names::WINDOW_SET_LAYOUT_NAME@, names::WINDOW_SET_LAYOUT_SIG@),
        (names::WINDOW_SET_WIDGET_AS_ROOT_NAME@, names::WINDOW_SET_WIDGET_AS_ROOT_SIG@),
        (names::WINDOW_REMOVE_GTK_BACKGROUND_NAME@, names::WINDOW_REMOVE_GTK_BACKGROUND_SIG@),
    ]
}

/// The native methods of `android/view/Window`.
pub fn window_natives() -> (methods: Vec<NativeName>)
    ensures
        named(methods@) == window_table(),
        methods@.len() == 5,
        methods@[0].name@ == names::WINDOW_SET_JOBJECT_NAME@ && methods@[0].signature@ == names::WINDOW_SET_JOBJECT_SIG@,
        methods@[1].name@ == names::WINDOW_SET_TITLE_NAME@ && methods@[1].signature@ == names::WINDOW_SET_TITLE_SIG@,
        methods@[2].name@ == names::WINDOW_SET_LAYOUT_NAME@ && methods@[2].signature@ == names::WINDOW_SET_LAYOUT_SIG@,
        methods@[3].name@ == names::WINDOW_SET_WIDGET_AS_ROOT_NAME@ && methods@[3].signature@ == names::WINDOW_SET_WIDGET_AS_ROOT_SIG@,
        methods@[4].name@ == names::WINDOW_REMOVE_GTK_BACKGROUND_NAME@ && methods@[4].signature@ == names::WINDOW_REMOVE_GTK_BACKGROUND_SIG@,
{
    let mut methods: Vec<NativeName> = Vec::new();
    methods.push(NativeName { name: names::WINDOW_SET_JOBJECT_NAME, signature: names::WINDOW_SET_JOBJECT_SIG });
    methods.push(NativeName { name: names::WINDOW_SET_TITLE_NAME, signature: names::WINDOW_SET_TITLE_SIG });
    methods.push(NativeName { name: names::WINDOW_SET_LAYOUT_NAME, signature: names::WINDOW_SET_LAYOUT_SIG });
    methods.push(NativeName { name: names::WINDOW_SET_WIDGET_AS_ROOT_NAME, signature: names::WINDOW_SET_WIDGET_AS_ROOT_SIG });
    methods.push(NativeName { name: names::WINDOW_REMOVE_GTK_BACKGROUND_NAME, signature: names::WINDOW_REMOVE_GTK_BACKGROUND_SIG });
    assert(named(methods@) =~= window_table());
    methods
}

/// The native methods of `android/widget/TextView`.
pub open spec fn text_view_table() -> Seq<(Seq<char>, Seq<char>)> {
    seq![
        (names::VIEW_NATIVE_CONSTRUCTOR_NAME@, names::VIEW_NATIVE_CONSTRUCTOR_SIG@),
        (names::TEXT_VIEW_NATIVE_SET_TEXT_NAME@, names::TEXT_VIEW_NATIVE_SET_TEXT_SIG@),
        (names::TEXT_VIEW_NATIVE_SET_TEXT_COLOR_NAME@, names::TEXT_VIEW_NATIVE_SET_TEXT_COLOR_SIG@),
        (names::TEXT_VIEW_SET_TEXT_SIZE_NAME@, names::TEXT_VIEW_SET_TEXT_SIZE_SIG@),
        (names::TEXT_VIEW_NATIVE_SET_MARKUP_NAME@, names::TEXT_VIEW_NATIVE_SET_MARKUP_SIG@),
        (names::TEXT_VIEW_NATIVE_SET_COMPOUND_DRAWABLES_NAME@, names::TEXT_VIEW_NATIVE_SET_COMPOUND_DRAWABLES_SIG@),
    ]
}

/// The native methods of `android/widget/TextView`.
pub fn text_view_natives() -> (methods: Vec<NativeName>)
    ensures
        named(methods@) == text_view_table(),
        methods@.len() == 6,
        methods@[0].name@ == names::VIEW_NATIVE_CONSTRUCTOR_NAME@ && methods@[0].signature@ == names::VIEW_NATIVE_CONSTRUCTOR_SIG@,
        methods@[1].name@ == names::TEXT_VIEW_NATIVE_SET_TEXT_NAME@ && methods@[1].signature@ == names::TEXT_VIEW_NATIVE_SET_TEXT_SIG@,
        methods@[2].name@ == names::TEXT_VIEW_NATIVE_SET_TEXT_COLOR_NAME@ && methods@[2].signature@ == names::TEXT_VIEW_NATIVE_SET_TEXT_COLOR_SIG@,
        methods@[3].name@ == names::TEXT_VIEW_SET_TEXT_SIZE_NAME@ && methods@[3].signature@ == names::TEXT_VIEW_SET_TEXT_SIZE_SIG@,
        methods@[4].name@ == names::TEXT_VIEW_NATIVE_SET_MARKUP_NAME@ && methods@[4].signature@ == names::TEXT_VIEW_NATIVE_SET_MARKUP_SIG@,
        methods@[5].name@ == names::TEXT_VIEW_NATIVE_SET_COMPOUND_DRAWABLES_NAME@ && methods@[5].signature@ == names::TEXT_VIEW_NATIVE_SET_COMPOUND_DRAWABLES_SIG@,
{
    let mut methods: Vec<NativeName> = Vec::new();
    methods.push(NativeName { name: names::VIEW_NATIVE_CONSTRUCTOR_NAME, signature: names::VIEW_NATIVE_CONSTRUCTOR_SIG });
    methods.push(NativeName { name: names::TEXT_VIEW_NATIVE_SET_TEXT_NAME, signature: names::TEXT_VIEW_NATIVE_SET_TEXT_SIG });
    methods.push(NativeName { name: names::TEXT_VIEW_NATIVE_SET_TEXT_COLOR_NAME, signature: names::TEXT_VIEW_NATIVE_SET_TEXT_COLOR_SIG });
    methods.push(NativeName { name: names::TEXT_VIEW_SET_TEXT_SIZE_NAME, signature: names::TEXT_VIEW_SET_TEXT_SIZE_SIG });
    methods.push(NativeName { name: names::TEXT_VIEW_NATIVE_SET_MARKUP_NAME, signature: names::TEXT_VIEW_NATIVE_SET_MARKUP_SIG });
    methods.push(NativeName { name: names::TEXT_VIEW_NATIVE_SET_COMPOUND_DRAWABLES_NAME, signature: names::TEXT_VIEW_NATIVE_SET_COMPOUND_DRAWABLES_SIG });
    assert(named(methods@) =~= text_view_table());
    methods
}

/// The native methods of `android/widget/ImageView`.
pub open spec fn image_view_table() -> Seq<(Seq<char>, Seq<char>)> {
    seq![
        (names::VIEW_NATIVE_CONSTRUCTOR_NAME@, names::VIEW_NATIVE_CONSTRUCTOR_SIG@),
        (names::IMAGE_VIEW_SET_SCALE_TYPE_NAME@, names::IMAGE_VIEW_SET_SCALE_TYPE_SIG@),
        (names::IMAGE_VIEW_SET_DRAWABLE_NAME@, names::IMAGE_VIEW_SET_DRAWABLE_SIG@),
    ]
}

/// The native methods of `android/widget/ImageView`.
pub fn image_view_natives() -> (methods: Vec<NativeName>)
    ensures
        named(methods@) == image_view_table(),
        methods@.len() == 3,
        methods@[0].name@ == names::VIEW_NATIVE_CONSTRUCTOR_NAME@ && methods@[0].signature@ == names::VIEW_NATIVE_CONSTRUCTOR_SIG@,
        methods@[1].name@ == names::IMAGE_VIEW_SET_SCALE_TYPE_NAME@ && methods@[1].signature@ == names::IMAGE_VIEW_SET_SCALE_TYPE_SIG@,
        methods@[2].name@ == names::IMAGE_VIEW_SET_DRAWABLE_NAME@ && methods@[2].signature@ == names::IMAGE_VIEW_SET_DRAWABLE_SIG@,
{
    let mut methods: Vec<NativeName> = Vec::new();
    methods.push(NativeName { name: names::VIEW_NATIVE_CONSTRUCTOR_NAME, signature: names::VIEW_NATIVE_CONSTRUCTOR_SIG });
    methods.push(NativeName { name: names::IMAGE_VIEW_SET_SCALE_TYPE_NAME, signature: names::IMAGE_VIEW_SET_SCALE_TYPE_SIG });
    methods.push(NativeName { name: names::IMAGE_VIEW_SET_DRAWABLE_NAME, signature: names::IMAGE_VIEW_SET_DRAWABLE_SIG });
    assert(named(methods@) =~= image_view_table());
    methods
}

/// The native methods of `android/widget/ImageButton`.
pub open spec fn image_button_table() -> Seq<(Seq<char>, Seq<char>)> {
    seq![
        (names::VIEW_NATIVE_CONSTRUCTOR_NAME@, names::VIEW_NATIVE_CONSTRUCTOR_SIG@),
        (names::IMAGE_BUTTON_SET_ON_CLICK_LISTENER_NAME@, names::IMAGE_BUTTON_SET_ON_CLICK_LISTENER_SIG@),
        (names::IMAGE_VIEW_SET_DRAWABLE_NAME@, names::IMAGE_VIEW_SET_DRAWABLE_SIG@),
    ]
}

/// The native methods of `android/widget/ImageButton`.
pub fn image_button_natives() -> (methods: Vec<NativeName>)
    ensures
        named(methods@) == image_button_table(),
        methods@.len() == 3,
        methods@[0].name@ == names::VIEW_NATIVE_CONSTRUCTOR_NAME@ && methods@[0].signature@ == names::VIEW_NATIVE_CONSTRUCTOR_SIG@,
        methods@[1].name@ == names::IMAGE_BUTTON_SET_ON_CLICK_LISTENER_NAME@ && methods@[1].signature@ == names::IMAGE_BUTTON_SET_ON_CLICK_LISTENER_SIG@,
        methods@[2].name@ == names::IMAGE_VIEW_SET_DRAWABLE_NAME@ && methods@[2].signature@ == names::IMAGE_VIEW_SET_DRAWABLE_SIG@,
{
    let mut methods: Vec<NativeName> = Vec::new();
    methods.push(NativeName { name: names::VIEW_NATIVE_CONSTRUCTOR_NAME, signature: names::VIEW_NATIVE_CONSTRUCTOR_SIG });
    methods.push(NativeName { name: names::IMAGE_BUTTON_SET_ON_CLICK_LISTENER_NAME, signature: names::IMAGE_BUTTON_SET_ON_CLICK_LISTENER_SIG });
    methods.push(NativeName { name: names::IMAGE_VIEW_SET_DRAWABLE_NAME, signature: names::IMAGE_VIEW_SET_DRAWABLE_SIG });
    assert(named(methods@) =~= image_button_table());
    methods
}

/// The native methods of `android/view/SurfaceView`.
pub open spec fn surface_view_table() -> Seq<(Seq<char>, Seq<char>)> {
    seq![
        (names::VIEW_NATIVE_CONSTRUCTOR_NAME@, names::VIEW_NATIVE_CONSTRUCTOR_SIG@),
    ]
}

/// The native methods of `android/view/SurfaceView`.
pub fn surface_view_natives() -> (methods: Vec<NativeName>)
    ensures
        named(methods@) == surface_view_table(),
        methods@.len() == 1,
        methods@[0].name@ == names::VIEW_NATIVE_CONSTRUCTOR_NAME@ && methods@[0].signature@ == names::VIEW_NATIVE_CONSTRUCTOR_SIG@,
{
    let mut methods: Vec<NativeName> = Vec::new();
    methods.push(NativeName { name: names::VIEW_NATIVE_CONSTRUCTOR_NAME, signature: names::VIEW_NATIVE_CONSTRUCTOR_SIG });
    assert(named(methods@) =~= surface_view_table());
    methods
}

/// The native methods of each kind of view that layouts name.
pub open spec fn view_subclass_table() -> Seq<(Seq<char>, Seq<char>)> {
    seq![
        (names::VIEW_NATIVE_CONSTRUCTOR_NAME@, names::VIEW_NATIVE_CONSTRUCTOR_SIG@),
    ]
}

/// The native methods of each kind of view that layouts name.
pub fn view_subclass_natives() -> (methods: Vec<NativeName>)
    ensures
        named(methods@) == view_subclass_table(),
        methods@.len() == 1,
        methods@[0].name@ == names::VIEW_NATIVE_CONSTRUCTOR_NAME@ && methods@[0].signature@ == names::VIEW_NATIVE_CONSTRUCTOR_SIG@,
{
    let mut methods: Vec<NativeName> = Vec::new();
    methods.push(NativeName { name: names::VIEW_NATIVE_CONSTRUCTOR_NAME, signature: names::VIEW_NATIVE_CONSTRUCTOR_SIG });
    assert(named(methods@) =~= view_subclass_table());
    methods
}

/// The native methods of `android/webkit/WebView`.
pub open spec fn web_view_table() -> Seq<(Seq<char>, Seq<char>)> {
    seq![
        (names::VIEW_NATIVE_CONSTRUCTOR_NAME@, names::VIEW_NATIVE_CONSTRUCTOR_SIG@),
        (names::WEB_VIEW_NATIVE_LOAD_URL_NAME@, names::WEB_VIEW_NATIVE_LOAD_URL_SIG@),
        (names::WEB_VIEW_NATIVE_LOAD_DATA_WITH_BASE_URL_NAME@, names::WEB_VIEW_NATIVE_LOAD_DATA_WITH_BASE_URL_SIG@),
        (names::WEB_VIEW_NATIVE_EVALUATE_JAVASCRIPT_NAME@, names::WEB_VIEW_NATIVE_EVALUATE_JAVASCRIPT_SIG@),
        (names::WEB_VIEW_NATIVE_ADD_JAVASCRIPT_INTERFACE_NAME@, names::WEB_VIEW_NATIVE_ADD_JAVASCRIPT_INTERFACE_SIG@),
        (names::WEB_VIEW_NATIVE_CAN_GO_BACK_NAME@, names::WEB_VIEW_NATIVE_CAN_GO_BACK_SIG@),
        (names::WEB_VIEW_NATIVE_GO_BACK_NAME@, names::WEB_VIEW_NATIVE_GO_BACK_SIG@),
    ]
}

/// The native methods of `android/webkit/WebView`.
pub fn web_view_natives() -> (methods: Vec<NativeName>)
    ensures
        named(methods@) == web_view_table(),
        methods@.len() == 7,
        methods@[0].name@ == names::VIEW_NATIVE_CONSTRUCTOR_NAME@ && methods@[0].signature@ == names::VIEW_NATIVE_CONSTRUCTOR_SIG@,
        methods@[1].name@ == names::WEB_VIEW_NATIVE_LOAD_URL_NAME@ && methods@[1].signature@ == names::WEB_VIEW_NATIVE_LOAD_URL_SIG@,
        methods@[2].name@ == names::WEB_VIEW_NATIVE_LOAD_DATA_WITH_BASE_URL_NAME@ && methods@[2].signature@ == names::WEB_VIEW_NATIVE_LOAD_DATA_WITH_BASE_URL_SIG@,
        methods@[3].name@ == names::WEB_VIEW_NATIVE_EVALUATE_JAVASCRIPT_NAME@ && methods@[3].signature@ == names::WEB_VIEW_NATIVE_EVALUATE_JAVASCRIPT_SIG@,
        methods@[4].name@ == names::WEB_VIEW_NATIVE_ADD_JAVASCRIPT_INTERFACE_NAME@ && methods@[4].signature@ == names::WEB_VIEW_NATIVE_ADD_JAVASCRIPT_INTERFACE_SIG@,
        methods@[5].name@ == names::WEB_VIEW_NATIVE_CAN_GO_BACK_NAME@ && methods@[5].signature@ == names::WEB_VIEW_NATIVE_CAN_GO_BACK_SIG@,
        methods@[6].name@ == names::WEB_VIEW_NATIVE_GO_BACK_NAME@ && methods@[6].signature@ == names::WEB_VIEW_NATIVE_GO_BACK_SIG@,
{
    let mut methods: Vec<NativeName> = Vec::new();
    methods.push(NativeName { name: names::VIEW_NATIVE_CONSTRUCTOR_NAME, signature: names::VIEW_NATIVE_CONSTRUCTOR_SIG });
    methods.push(NativeName { name: names::WEB_VIEW_NATIVE_LOAD_URL_NAME, signature: names::WEB_VIEW_NATIVE_LOAD_URL_SIG });
    methods.push(NativeName { name: names::WEB_VIEW_NATIVE_LOAD_DATA_WITH_BASE_URL_NAME, signature: names::WEB_VIEW_NATIVE_LOAD_DATA_WITH_BASE_URL_SIG });
    methods.push(NativeName { name: names::WEB_VIEW_NATIVE_EVALUATE_JAVASCRIPT_NAME, signature: names::WEB_VIEW_NATIVE_EVALUATE_JAVASCRIPT_SIG });
    methods.push(NativeName { name: names::WEB_VIEW_NATIVE_ADD_JAVASCRIPT_INTERFACE_NAME, signature: names::WEB_VIEW_NATIVE_ADD_JAVASCRIPT_INTERFACE_SIG });
    methods.push(NativeName { name: names::WEB_VIEW_NATIVE_CAN_GO_BACK_NAME, signature: names::WEB_VIEW_NATIVE_CAN_GO_BACK_SIG });
    methods.push(NativeName { name: names::WEB_VIEW_NATIVE_GO_BACK_NAME, signature: names::WEB_VIEW_NATIVE_GO_BACK_SIG });
    assert(named(methods@) =~= web_view_table());
    methods
}

/// The native methods of `android/webkit/WebSettings`.
pub open spec fn web_settings_table() -> Seq<(Seq<char>, Seq<char>)> {
    seq![
        (names::WEB_SETTINGS_NATIVE_SET_USER_AGENT_STRING_NAME@, names::WEB_SETTINGS_NATIVE_SET_USER_AGENT_STRING_SIG@),
        (names::WEB_SETTINGS_NATIVE_GET_USER_AGENT_STRING_NAME@, names::WEB_SETTINGS_NATIVE_GET_USER_AGENT_STRING_SIG@),
    ]
}

/// The native methods of `android/webkit/WebSettings`.
pub fn web_settings_natives() -> (methods: Vec<NativeName>)
    ensures
        named(methods@) == web_settings_table(),
        methods@.len() == 2,
        methods@[0].name@ == names::WEB_SETTINGS_NATIVE_SET_USER_AGENT_STRING_NAME@ && methods@[0].signature@ == names::WEB_SETTINGS_NATIVE_SET_USER_AGENT_STRING_SIG@,
        methods@[1].name@ == names::WEB_SETTINGS_NATIVE_GET_USER_AGENT_STRING_NAME@ && methods@[1].signature@ == names::WEB_SETTINGS_NATIVE_GET_USER_AGENT_STRING_SIG@,
{
    let mut methods: Vec<NativeName> = Vec::new();
    methods.push(NativeName { name: names::WEB_SETTINGS_NATIVE_SET_USER_AGENT_STRING_NAME, signature: names::WEB_SETTINGS_NATIVE_SET_USER_AGENT_STRING_SIG });
    methods.push(NativeName { name: names::WEB_SETTINGS_NATIVE_GET_USER_AGENT_STRING_NAME, signature: names::WEB_SETTINGS_NATIVE_GET_USER_AGENT_STRING_SIG });
    assert(named(methods@) =~= web_settings_table());
    methods
}

/// The native methods of `android/webkit/CookieManager`.
pub open spec fn cookie_manager_table() -> Seq<(Seq<char>, Seq<char>)> {
    seq![
        (names::CM_NATIVE_GET_COOKIE_NAME@, names::CM_NATIVE_GET_COOKIE_SIG@),
        (names::CM_NATIVE_SET_COOKIE_NAME@, names::CM_NATIVE_SET_COOKIE_SIG@),
        (names::CM_NATIVE_SET_COOKIE_NAME@, names::CM_NATIVE_SET_COOKIE_CB_SIG@),
        (names::CM_NATIVE_REMOVE_ALL_COOKIES_NAME@, names::CM_NATIVE_REMOVE_ALL_COOKIES_SIG@),
        (names::CM_NATIVE_REMOVE_SESSION_COOKIES_NAME@, names::CM_NATIVE_REMOVE_SESSION_COOKIES_SIG@),
        (names::CM_NATIVE_FLUSH_NAME@, names::CM_NATIVE_FLUSH_SIG@),
    ]
}

/// The native methods of `android/webkit/CookieManager`.
pub fn cookie_manager_natives() -> (methods: Vec<NativeName>)
    ensures
        named(methods@) == cookie_manager_table(),
        methods@.len() == 6,
        methods@[0].name@ == names::CM_NATIVE_GET_COOKIE_NAME@ && methods@[0].signature@ == names::CM_NATIVE_GET_COOKIE_SIG@,
        methods@[1].name@ == names::CM_NATIVE_SET_COOKIE_NAME@ && methods@[1].signature@ == names::CM_NATIVE_SET_COOKIE_SIG@,
        methods@[2].name@ == names::CM_NATIVE_SET_COOKIE_NAME@ && methods@[2].signature@ == names::CM_NATIVE_SET_COOKIE_CB_SIG@,
        methods@[3].name@ == names::CM_NATIVE_REMOVE_ALL_COOKIES_NAME@ && methods@[3].signature@ == names::CM_NATIVE_REMOVE_ALL_COOKIES_SIG@,
        methods@[4].name@ == names::CM_NATIVE_REMOVE_SESSION_COOKIES_NAME@ && methods@[4].signature@ == names::CM_NATIVE_REMOVE_SESSION_COOKIES_SIG@,
        methods@[5].name@ == names::CM_NATIVE_FLUSH_NAME@ && methods@[5].signature@ == names::CM_NATIVE_FLUSH_SIG@,
{
    let mut methods: Vec<NativeName> = Vec::new();
    methods.push(NativeName { name: names::CM_NATIVE_GET_COOKIE_NAME, signature: names::CM_NATIVE_GET_COOKIE_SIG });
    methods.push(NativeName { name: names::CM_NATIVE_SET_COOKIE_NAME, signature: names::CM_NATIVE_SET_COOKIE_SIG });
    methods.push(NativeName { name: names::CM_NATIVE_SET_COOKIE_NAME, signature: names::CM_NATIVE_SET_COOKIE_CB_SIG });
    methods.push(NativeName { name: names::CM_NATIVE_REMOVE_ALL_COOKIES_NAME, signature: names::CM_NATIVE_REMOVE_ALL_COOKIES_SIG });
    methods.push(NativeName { name: names::CM_NATIVE_REMOVE_SESSION_COOKIES_NAME, signature: names::CM_NATIVE_REMOVE_SESSION_COOKIES_SIG });
    methods.push(NativeName { name: names::CM_NATIVE_FLUSH_NAME, signature: names::CM_NATIVE_FLUSH_SIG });
    assert(named(methods@) =~= cookie_manager_table());
    methods
}

/// The native methods of `android/widget/Button`.
pub open spec fn button_table() -> Seq<(Seq<char>, Seq<char>)> {
    seq![
        (names::WIDGET_NATIVE_SET_TEXT_NAME@, names::WIDGET_NATIVE_SET_TEXT_SIG@),
        (names::BUTTON_SET_COMPOUND_DRAWABLES_NAME@, names::BUTTON_SET_COMPOUND_DRAWABLES_SIG@),
    ]
}

/// The native methods of `android/widget/Button`.
pub fn button_natives() -> (methods: Vec<NativeName>)
    ensures
        named(methods@) == button_table(),
        methods@.len() == 2,
        methods@[0].name@ == names::WIDGET_NATIVE_SET_TEXT_NAME@ && methods@[0].signature@ == names::WIDGET_NATIVE_SET_TEXT_SIG@,
        methods@[1].name@ == names::BUTTON_SET_COMPOUND_DRAWABLES_NAME@ && methods@[1].signature@ == names::BUTTON_SET_COMPOUND_DRAWABLES_SIG@,
{
    let mut methods: Vec<NativeName> = Vec::new();
    methods.push(NativeName { name: names::WIDGET_NATIVE_SET_TEXT_NAME, signature: names::WIDGET_NATIVE_SET_TEXT_SIG });
    methods.push(NativeName { name: names::BUTTON_SET_COMPOUND_DRAWABLES_NAME, signature: names::BUTTON_SET_COMPOUND_DRAWABLES_SIG });
    assert(named(methods@) =~= button_table());
    methods
}

/// The native methods of `android/widget/EditText`.
pub open spec fn edit_text_table() -> Seq<(Seq<char>, Seq<char>)> {
    seq![
        (names::WIDGET_NATIVE_SET_TEXT_NAME@, names::WIDGET_NATIVE_SET_TEXT_SIG@),
        (names::EDIT_TEXT_GET_TEXT_NAME@, names::EDIT_TEXT_GET_TEXT_SIG@),
        (names::EDIT_TEXT_ADD_TEXT_CHANGED_LISTENER_NAME@, names::EDIT_TEXT_TEXT_CHANGED_LISTENER_SIG@),
        (names::EDIT_TEXT_REMOVE_TEXT_CHANGED_LISTENER_NAME@, names::EDIT_TEXT_TEXT_CHANGED_LISTENER_SIG@),
        (names::EDIT_TEXT_SET_ON_EDITOR_ACTION_LISTENER_NAME@, names::EDIT_TEXT_SET_ON_EDITOR_ACTION_LISTENER_SIG@),
    ]
}

/// The native methods of `android/widget/EditText`.
pub fn edit_text_natives() -> (methods: Vec<NativeName>)
    ensures
        named(methods@) == edit_text_table(),
        methods@.len() == 5,
        methods@[0].name@ == names::WIDGET_NATIVE_SET_TEXT_NAME@ && methods@[0].signature@ == names::WIDGET_NATIVE_SET_TEXT_SIG@,
        methods@[1].name@ == names::EDIT_TEXT_GET_TEXT_NAME@ && methods@[1].signature@ == names::EDIT_TEXT_GET_TEXT_SIG@,
        methods@[2].name@ == names::EDIT_TEXT_ADD_TEXT_CHANGED_LISTENER_NAME@ && methods@[2].signature@ == names::EDIT_TEXT_TEXT_CHANGED_LISTENER_SIG@,
        methods@[3].name@ == names::EDIT_TEXT_REMOVE_TEXT_CHANGED_LISTENER_NAME@ && methods@[3].signature@ == names::EDIT_TEXT_TEXT_CHANGED_LISTENER_SIG@,
        methods@[4].name@ == names::EDIT_TEXT_SET_ON_EDITOR_ACTION_LISTENER_NAME@ && methods@[4].signature@ == names::EDIT_TEXT_SET_ON_EDITOR_ACTION_LISTENER_SIG@,
{
    let mut methods: Vec<NativeName> = Vec::new();
    methods.push(NativeName { name: names::WIDGET_NATIVE_SET_TEXT_NAME, signature: names::WIDGET_NATIVE_SET_TEXT_SIG });
    methods.push(NativeName { name: names::EDIT_TEXT_GET_TEXT_NAME, signature: names::EDIT_TEXT_GET_TEXT_SIG });
    methods.push(NativeName { name: names::EDIT_TEXT_ADD_TEXT_CHANGED_LISTENER_NAME, signature: names::EDIT_TEXT_TEXT_CHANGED_LISTENER_SIG });
    methods.push(NativeName { name: names::EDIT_TEXT_REMOVE_TEXT_CHANGED_LISTENER_NAME, signature: names::EDIT_TEXT_TEXT_CHANGED_LISTENER_SIG });
    methods.push(NativeName { name: names::EDIT_TEXT_SET_ON_EDITOR_ACTION_LISTENER_NAME, signature: names::EDIT_TEXT_SET_ON_EDITOR_ACTION_LISTENER_SIG });
    assert(named(methods@) =~= edit_text_table());
    methods
}

/// The native methods of `android/widget/CheckBox`.
pub open spec fn check_box_table() -> Seq<(Seq<char>, Seq<char>)> {
    seq![
        (names::WIDGET_NATIVE_SET_TEXT_NAME@, names::WIDGET_NATIVE_SET_TEXT_SIG@),
    ]
}

/// The native methods of `android/widget/CheckBox`.
pub fn check_box_natives() -> (methods: Vec<NativeName>)
    ensures
        named(methods@) == check_box_table(),
        methods@.len() == 1,
        methods@[0].name@ == names::WIDGET_NATIVE_SET_TEXT_NAME@ && methods@[0].signature@ == names::WIDGET_NATIVE_SET_TEXT_SIG@,
{
    let mut methods: Vec<NativeName> = Vec::new();
    methods.push(NativeName { name: names::WIDGET_NATIVE_SET_TEXT_NAME, signature: names::WIDGET_NATIVE_SET_TEXT_SIG });
    assert(named(methods@) =~= check_box_table());
    methods
}

/// The native methods of `android/widget/RadioButton`.
pub open spec fn radio_button_table() -> Seq<(Seq<char>, Seq<char>)> {
    seq![
        (names::RADIO_BUTTON_SET_TEXT_NAME@, names::RADIO_BUTTON_SET_TEXT_SIG@),
    ]
}

/// The native methods of `android/widget/RadioButton`.
pub fn radio_button_natives() -> (methods: Vec<NativeName>)
    ensures
        named(methods@) == radio_button_table(),
        methods@.len() == 1,
        methods@[0].name@ == names::RADIO_BUTTON_SET_TEXT_NAME@ && methods@[0].signature@ == names::RADIO_BUTTON_SET_TEXT_SIG@,
{
    let mut methods: Vec<NativeName> = Vec::new();
    methods.push(NativeName { name: names::RADIO_BUTTON_SET_TEXT_NAME, signature: names::RADIO_BUTTON_SET_TEXT_SIG });
    assert(named(methods@) =~= radio_button_table());
    methods
}

/// The native methods of `android/widget/ProgressBar`.
pub open spec fn progress_bar_table() -> Seq<(Seq<char>, Seq<char>)> {
    seq![
        (names::PROGRESS_BAR_SET_INDETERMINATE_NAME@, names::PROGRESS_BAR_SET_INDETERMINATE_SIG@),
        (names::PROGRESS_NATIVE_SET_PROGRESS_NAME@, names::PROGRESS_NATIVE_SET_PROGRESS_SIG@),
    ]
}

/// The native methods of `android/widget/ProgressBar`.
pub fn progress_bar_natives() -> (methods: Vec<NativeName>)
    ensures
        named(methods@) == progress_bar_table(),
        methods@.len() == 2,
        methods@[0].name@ == names::PROGRESS_BAR_SET_INDETERMINATE_NAME@ && methods@[0].signature@ == names::PROGRESS_BAR_SET_INDETERMINATE_SIG@,
        methods@[1].name@ == names::PROGRESS_NATIVE_SET_PROGRESS_NAME@ && methods@[1].signature@ == names::PROGRESS_NATIVE_SET_PROGRESS_SIG@,
{
    let mut methods: Vec<NativeName> = Vec::new();
    methods.push(NativeName { name: names::PROGRESS_BAR_SET_INDETERMINATE_NAME, signature: names::PROGRESS_BAR_SET_INDETERMINATE_SIG });
    methods.push(NativeName { name: names::PROGRESS_NATIVE_SET_PROGRESS_NAME, signature: names::PROGRESS_NATIVE_SET_PROGRESS_SIG });
    assert(named(methods@) =~= progress_bar_table());
    methods
}

/// The native methods of `android/widget/SeekBar`.
pub open spec fn seek_bar_table() -> Seq<(Seq<char>, Seq<char>)> {
    seq![
        (names::PROGRESS_NATIVE_SET_PROGRESS_NAME@, names::PROGRESS_NATIVE_SET_PROGRESS_SIG@),
        (names::SEEK_BAR_SET_MAX_NAME@, names::SEEK_BAR_SET_MAX_SIG@),
    ]
}

/// The native methods of `android/widget/SeekBar`.
pub fn seek_bar_natives() -> (methods: Vec<NativeName>)
    ensures
        named(methods@) == seek_bar_table(),
        methods@.len() == 2,
        methods@[0].name@ == names::PROGRESS_NATIVE_SET_PROGRESS_NAME@ && methods@[0].signature@ == names::PROGRESS_NATIVE_SET_PROGRESS_SIG@,
        methods@[1].name@ == names::SEEK_BAR_SET_MAX_NAME@ && methods@[1].signature@ == names::SEEK_BAR_SET_MAX_SIG@,
{
    let mut methods: Vec<NativeName> = Vec::new();
    methods.push(NativeName { name: names::PROGRESS_NATIVE_SET_PROGRESS_NAME, signature: names::PROGRESS_NATIVE_SET_PROGRESS_SIG });
    methods.push(NativeName { name: names::SEEK_BAR_SET_MAX_NAME, signature: names::SEEK_BAR_SET_MAX_SIG });
    assert(named(methods@) =~= seek_bar_table());
    methods
}

/// The native methods of `android/widget/Spinner`.
pub open spec fn spinner_table() -> Seq<(Seq<char>, Seq<char>)> {
    seq![
        (names::SPINNER_SET_ADAPTER_NAME@, names::SPINNER_SET_ADAPTER_SIG@),
    ]
}

/// The native methods of `android/widget/Spinner`.
pub fn spinner_natives() -> (methods: Vec<NativeName>)
    ensures
        named(methods@) == spinner_table(),
        methods@.len() == 1,
        methods@[0].name@ == names::SPINNER_SET_ADAPTER_NAME@ && methods@[0].signature@ == names::SPINNER_SET_ADAPTER_SIG@,
{
    let mut methods: Vec<NativeName> = Vec::new();
    methods.push(NativeName { name: names::SPINNER_SET_ADAPTER_NAME, signature: names::SPINNER_SET_ADAPTER_SIG });
    assert(named(methods@) =~= spinner_table());
    methods
}

/// The native methods of `android/widget/ScrollView`.
pub open spec fn scroll_view_table() -> Seq<(Seq<char>, Seq<char>)> {
    seq![
        (names::VIEW_GROUP_NATIVE_ADD_VIEW_NAME@, names::VIEW_GROUP_NATIVE_ADD_VIEW_SIG@),
        (names::VIEW_GROUP_NATIVE_REMOVE_VIEW_NAME@, names::VIEW_GROUP_NATIVE_REMOVE_VIEW_SIG@),
    ]
}

/// The native methods of `android/widget/ScrollView`.
pub fn scroll_view_natives() -> (methods: Vec<NativeName>)
    ensures
        named(methods@) == scroll_view_table(),
        methods@.len() == 2,
        methods@[0].name@ == names::VIEW_GROUP_NATIVE_ADD_VIEW_NAME@ && methods@[0].signature@ == names::VIEW_GROUP_NATIVE_ADD_VIEW_SIG@,
        methods@[1].name@ == names::VIEW_GROUP_NATIVE_REMOVE_VIEW_NAME@ && methods@[1].signature@ == names::VIEW_GROUP_NATIVE_REMOVE_VIEW_SIG@,
{
    let mut methods: Vec<NativeName> = Vec::new();
    methods.push(NativeName { name: names::VIEW_GROUP_NATIVE_ADD_VIEW_NAME, signature: names::VIEW_GROUP_NATIVE_ADD_VIEW_SIG });
    methods.push(NativeName { name: names::VIEW_GROUP_NATIVE_REMOVE_VIEW_NAME, signature: names::VIEW_GROUP_NATIVE_REMOVE_VIEW_SIG });
    assert(named(methods@) =~= scroll_view_table());
    methods
}

/// The native methods of `android/graphics/drawable/Drawable`.
pub open spec fn drawable_table() -> Seq<(Seq<char>, Seq<char>)> {
    seq![
        (names::DRAWABLE_NATIVE_CONSTRUCTOR_NAME@, names::DRAWABLE_NATIVE_CONSTRUCTOR_SIG@),
        (names::DRAWABLE_NATIVE_UNREF_NAME@, names::DRAWABLE_NATIVE_UNREF_SIG@),
        (names::DRAWABLE_NATIVE_INVALIDATE_NAME@, names::DRAWABLE_NATIVE_INVALIDATE_SIG@),
        (names::DRAWABLE_NATIVE_REF_NAME@, names::DRAWABLE_NATIVE_REF_SIG@),
        (names::DRAWABLE_NATIVE_DRAW_NAME@, names::DRAWABLE_NATIVE_DRAW_SIG@),
        (names::DRAWABLE_PAINTABLE_FROM_PATH_NAME@, names::DRAWABLE_PAINTABLE_FROM_PATH_SIG@),
    ]
}

/// The native methods of `android/graphics/drawable/Drawable`.
pub fn drawable_natives() -> (methods: Vec<NativeName>)
    ensures
        named(methods@) == drawable_table(),
        methods@.len() == 6,
        methods@[0].name@ == names::DRAWABLE_NATIVE_CONSTRUCTOR_NAME@ && methods@[0].signature@ == names::DRAWABLE_NATIVE_CONSTRUCTOR_SIG@,
        methods@[1].name@ == names::DRAWABLE_NATIVE_UNREF_NAME@ && methods@[1].signature@ == names::DRAWABLE_NATIVE_UNREF_SIG@,
        methods@[2].name@ == names::DRAWABLE_NATIVE_INVALIDATE_NAME@ && methods@[2].signature@ == names::DRAWABLE_NATIVE_INVALIDATE_SIG@,
        methods@[3].name@ == names::DRAWABLE_NATIVE_REF_NAME@ && methods@[3].signature@ == names::DRAWABLE_NATIVE_REF_SIG@,
        methods@[4].name@ == names::DRAWABLE_NATIVE_DRAW_NAME@ && methods@[4].signature@ == names::DRAWABLE_NATIVE_DRAW_SIG@,
        methods@[5].name@ == names::DRAWABLE_PAINTABLE_FROM_PATH_NAME@ && methods@[5].signature@ == names::DRAWABLE_PAINTABLE_FROM_PATH_SIG@,
{
    let mut methods: Vec<NativeName> = Vec::new();
    methods.push(NativeName { name: names::DRAWABLE_NATIVE_CONSTRUCTOR_NAME, signature: names::DRAWABLE_NATIVE_CONSTRUCTOR_SIG });
    methods.push(NativeName { name: names::DRAWABLE_NATIVE_UNREF_NAME, signature: names::DRAWABLE_NATIVE_UNREF_SIG });
    methods.push(NativeName { name: names::DRAWABLE_NATIVE_INVALIDATE_NAME, signature: names::DRAWABLE_NATIVE_INVALIDATE_SIG });
    methods.push(NativeName { name: names::DRAWABLE_NATIVE_REF_NAME, signature: names::DRAWABLE_NATIVE_REF_SIG });
    methods.push(NativeName { name: names::DRAWABLE_NATIVE_DRAW_NAME, signature: names::DRAWABLE_NATIVE_DRAW_SIG });
    methods.push(NativeName { name: names::DRAWABLE_PAINTABLE_FROM_PATH_NAME, signature: names::DRAWABLE_PAINTABLE_FROM_PATH_SIG });
    assert(named(methods@) =~= drawable_table());
    methods
}

/// The native methods of `android/graphics/drawable/DrawableContainer`.
pub open spec fn drawable_container_table() -> Seq<(Seq<char>, Seq<char>)> {
    seq![
        (names::DRAWABLE_NATIVE_CONSTRUCTOR_NAME@, names::DRAWABLE_NATIVE_CONSTRUCTOR_SIG@),
        (names::DRAWABLE_CONTAINER_SELECT_CHILD_NAME@, names::DRAWABLE_CONTAINER_SELECT_CHILD_SIG@),
    ]
}

/// The native methods of `android/graphics/drawable/DrawableContainer`.
pub fn drawable_container_natives() -> (methods: Vec<NativeName>)
    ensures
        named(methods@) == drawable_container_table(),
        methods@.len() == 2,
        methods@[0].name@ == names::DRAWABLE_NATIVE_CONSTRUCTOR_NAME@ && methods@[0].signature@ == names::DRAWABLE_NATIVE_CONSTRUCTOR_SIG@,
        methods@[1].name@ == names::DRAWABLE_CONTAINER_SELECT_CHILD_NAME@ && methods@[1].signature@ == names::DRAWABLE_CONTAINER_SELECT_CHILD_SIG@,
{
    let mut methods: Vec<NativeName> = Vec::new();
    methods.push(NativeName { name: names::DRAWABLE_NATIVE_CONSTRUCTOR_NAME, signature: names::DRAWABLE_NATIVE_CONSTRUCTOR_SIG });
    methods.push(NativeName { name: names::DRAWABLE_CONTAINER_SELECT_CHILD_NAME, signature: names::DRAWABLE_CONTAINER_SELECT_CHILD_SIG });
    assert(named(methods@) =~= drawable_container_table());
    methods
}

/// The native methods of `android/graphics/drawable/NinePatchDrawable`.
pub open spec fn nine_patch_drawable_table() -> Seq<(Seq<char>, Seq<char>)> {
    seq![
        (names::NINE_PATCH_CREATE_NAME@, names::NINE_PATCH_CREATE_FROM_PATH_SIG@),
        (names::NINE_PATCH_CREATE_NAME@, names::NINE_PATCH_CREATE_FROM_CHUNK_SIG@),
        (names::NINE_PATCH_SET_TINT_NAME@, names::NINE_PATCH_SET_TINT_SIG@),
    ]
}

/// The native methods of `android/graphics/drawable/NinePatchDrawable`.
pub fn nine_patch_drawable_natives() -> (methods: Vec<NativeName>)
    ensures
        named(methods@) == nine_patch_drawable_table(),
        methods@.len() == 3,
        methods@[0].name@ == names::NINE_PATCH_CREATE_NAME@ && methods@[0].signature@ == names::NINE_PATCH_CREATE_FROM_PATH_SIG@,
        methods@[1].name@ == names::NINE_PATCH_CREATE_NAME@ && methods@[1].signature@ == names::NINE_PATCH_CREATE_FROM_CHUNK_SIG@,
        methods@[2].name@ == names::NINE_PATCH_SET_TINT_NAME@ && methods@[2].signature@ == names::NINE_PATCH_SET_TINT_SIG@,
{
    let mut methods: Vec<NativeName> = Vec::new();
    methods.push(NativeName { name: names::NINE_PATCH_CREATE_NAME, signature: names::NINE_PATCH_CREATE_FROM_PATH_SIG });
    methods.push(NativeName { name: names::NINE_PATCH_CREATE_NAME, signature: names::NINE_PATCH_CREATE_FROM_CHUNK_SIG });
    methods.push(NativeName { name: names::NINE_PATCH_SET_TINT_NAME, signature: names::NINE_PATCH_SET_TINT_SIG });
    assert(named(methods@) =~= nine_patch_drawable_table());
    methods
}

/// The native methods of `android/graphics/BitmapFactory`.
pub open spec fn bitmap_factory_table() -> Seq<(Seq<char>, Seq<char>)> {
    seq![
        (names::BITMAP_FACTORY_DECODE_STREAM_NAME@, names::BITMAP_FACTORY_DECODE_STREAM_SIG@),
    ]
}

/// The native methods of `android/graphics/BitmapFactory`.
pub fn bitmap_factory_natives() -> (methods: Vec<NativeName>)
    ensures
        named(methods@) == bitmap_factory_table(),
        methods@.len() == 1,
        methods@[0].name@ == names::BITMAP_FACTORY_DECODE_STREAM_NAME@ && methods@[0].signature@ == names::BITMAP_FACTORY_DECODE_STREAM_SIG@,
{
    let mut methods: Vec<NativeName> = Vec::new();
    methods.push(NativeName { name: names::BITMAP_FACTORY_DECODE_STREAM_NAME, signature: names::BITMAP_FACTORY_DECODE_STREAM_SIG });
    assert(named(methods@) =~= bitmap_factory_table());
    methods
}

/// The native methods of `android/graphics/Bitmap`.
pub open spec fn bitmap_table() -> Seq<(Seq<char>, Seq<char>)> {
    seq![
        (names::BITMAP_GET_WIDTH_NAME@, names::BITMAP_GET_WIDTH_SIG@),
        (names::BITMAP_GET_HEIGHT_NAME@, names::BITMAP_GET_HEIGHT_SIG@),
        (names::BITMAP_RECYCLE_NAME@, names::BITMAP_RECYCLE_SIG@),
        (names::BITMAP_CREATE_TEXTURE_NAME@, names::BITMAP_CREATE_TEXTURE_SIG@),
        (names::BITMAP_CREATE_SNAPSHOT_NAME@, names::BITMAP_CREATE_SNAPSHOT_SIG@),
        (names::BITMAP_REF_TEXTURE_NAME@, names::BITMAP_REF_TEXTURE_SIG@),
    ]
}

/// The native methods of `android/graphics/Bitmap`.
pub fn bitmap_natives() -> (methods: Vec<NativeName>)
    ensures
        named(methods@) == bitmap_table(),
        methods@.len() == 6,
        methods@[0].name@ == names::BITMAP_GET_WIDTH_NAME@ && methods@[0].signature@ == names::BITMAP_GET_WIDTH_SIG@,
        methods@[1].name@ == names::BITMAP_GET_HEIGHT_NAME@ && methods@[1].signature@ == names::BITMAP_GET_HEIGHT_SIG@,
        methods@[2].name@ == names::BITMAP_RECYCLE_NAME@ && methods@[2].signature@ == names::BITMAP_RECYCLE_SIG@,
        methods@[3].name@ == names::BITMAP_CREATE_TEXTURE_NAME@ && methods@[3].signature@ == names::BITMAP_CREATE_TEXTURE_SIG@,
        methods@[4].name@ == names::BITMAP_CREATE_SNAPSHOT_NAME@ && methods@[4].signature@ == names::BITMAP_CREATE_SNAPSHOT_SIG@,
        methods@[5].name@ == names::BITMAP_REF_TEXTURE_NAME@ && methods@[5].signature@ == names::BITMAP_REF_TEXTURE_SIG@,
{
    let mut methods: Vec<NativeName> = Vec::new();
    methods.push(NativeName { name: names::BITMAP_GET_WIDTH_NAME, signature: names::BITMAP_GET_WIDTH_SIG });
    methods.push(NativeName { name: names::BITMAP_GET_HEIGHT_NAME, signature: names::BITMAP_GET_HEIGHT_SIG });
    methods.push(NativeName { name: names::BITMAP_RECYCLE_NAME, signature: names::BITMAP_RECYCLE_SIG });
    methods.push(NativeName { name: names::BITMAP_CREATE_TEXTURE_NAME, signature: names::BITMAP_CREATE_TEXTURE_SIG });
    methods.push(NativeName { name: names::BITMAP_CREATE_SNAPSHOT_NAME, signature: names::BITMAP_CREATE_SNAPSHOT_SIG });
    methods.push(NativeName { name: names::BITMAP_REF_TEXTURE_NAME, signature: names::BITMAP_REF_TEXTURE_SIG });
    assert(named(methods@) =~= bitmap_table());
    methods
}

/// The native methods of `android/view/ViewGroup`.
pub open spec fn view_group_table() -> Seq<(Seq<char>, Seq<char>)> {
    seq![
        (names::VIEW_GROUP_NATIVE_ADD_VIEW_NAME@, names::VIEW_GROUP_NATIVE_ADD_VIEW_SIG@),
        (names::VIEW_GROUP_NATIVE_REMOVE_VIEW_NAME@, names::VIEW_GROUP_NATIVE_REMOVE_VIEW_SIG@),
    ]
}

/// The native methods of `android/view/ViewGroup`.
pub fn view_group_natives() -> (methods: Vec<NativeName>)
    ensures
        named(methods@) == view_group_table(),
        methods@.len() == 2,
        methods@[0].name@ == names::VIEW_GROUP_NATIVE_ADD_VIEW_NAME@ && methods@[0].signature@ == names::VIEW_GROUP_NATIVE_ADD_VIEW_SIG@,
        methods@[1].name@ == names::VIEW_GROUP_NATIVE_REMOVE_VIEW_NAME@ && methods@[1].signature@ == names::VIEW_GROUP_NATIVE_REMOVE_VIEW_SIG@,
{
    let mut methods: Vec<NativeName> = Vec::new();
    methods.push(NativeName { name: names::VIEW_GROUP_NATIVE_ADD_VIEW_NAME, signature: names::VIEW_GROUP_NATIVE_ADD_VIEW_SIG });
    methods.push(NativeName { name: names::VIEW_GROUP_NATIVE_REMOVE_VIEW_NAME, signature: names::VIEW_GROUP_NATIVE_REMOVE_VIEW_SIG });
    assert(named(methods@) =~= view_group_table());
    methods
}

/// The native methods of `android/graphics/Paint`.
pub open spec fn paint_table() -> Seq<(Seq<char>, Seq<char>)> {
    seq![
        (names::PAINT_NATIVE_CREATE_NAME@, names::PAINT_NATIVE_CREATE_SIG@),
        (names::PAINT_NATIVE_CLONE_NAME@, names::PAINT_NATIVE_CLONE_SIG@),
        (names::PAINT_NATIVE_RECYCLE_NAME@, names::PAINT_NATIVE_RECYCLE_SIG@),
        (names::PAINT_NATIVE_SET_COLOR_NAME@, names::PAINT_NATIVE_SET_COLOR_SIG@),
        (names::PAINT_NATIVE_GET_COLOR_NAME@, names::PAINT_NATIVE_GET_COLOR_SIG@),
        (names::PAINT_NATIVE_SET_ALPHA_NAME@, names::PAINT_NATIVE_SET_ALPHA_SIG@),
        (names::PAINT_NATIVE_GET_ALPHA_NAME@, names::PAINT_NATIVE_GET_ALPHA_SIG@),
        (names::PAINT_NATIVE_SET_STYLE_NAME@, names::PAINT_NATIVE_SET_STYLE_SIG@),
        (names::PAINT_NATIVE_GET_STYLE_NAME@, names::PAINT_NATIVE_GET_STYLE_SIG@),
        (names::PAINT_NATIVE_SET_STROKE_WIDTH_NAME@, names::PAINT_NATIVE_SET_STROKE_WIDTH_SIG@),
        (names::PAINT_NATIVE_GET_STROKE_WIDTH_NAME@, names::PAINT_NATIVE_GET_STROKE_WIDTH_SIG@),
        (names::PAINT_NATIVE_SET_STROKE_CAP_NAME@, names::PAINT_NATIVE_SET_STROKE_CAP_SIG@),
        (names::PAINT_NATIVE_GET_STROKE_CAP_NAME@, names::PAINT_NATIVE_GET_STROKE_CAP_SIG@),
        (names::PAINT_NATIVE_SET_STROKE_JOIN_NAME@, names::PAINT_NATIVE_SET_STROKE_JOIN_SIG@),
        (names::PAINT_NATIVE_GET_STROKE_JOIN_NAME@, names::PAINT_NATIVE_GET_STROKE_JOIN_SIG@),
        (names::PAINT_NATIVE_SET_TEXT_SIZE_NAME@, names::PAINT_NATIVE_SET_TEXT_SIZE_SIG@),
        (names::PAINT_NATIVE_GET_TEXT_SIZE_NAME@, names::PAINT_NATIVE_GET_TEXT_SIZE_SIG@),
        (names::PAINT_NATIVE_SET_COLOR_FILTER_NAME@, names::PAINT_NATIVE_SET_COLOR_FILTER_SIG@),
        (names::PAINT_NATIVE_SET_TEXT_ALIGN_NAME@, names::PAINT_NATIVE_SET_TEXT_ALIGN_SIG@),
    ]
}

/// The native methods of `android/graphics/Paint`.
pub fn paint_natives() -> (methods: Vec<NativeName>)
    ensures
        named(methods@) == paint_table(),
        methods@.len() == 19,
        methods@[0].name@ == names::PAINT_NATIVE_CREATE_NAME@ && methods@[0].signature@ == names::PAINT_NATIVE_CREATE_SIG@,
        methods@[1].name@ == names::PAINT_NATIVE_CLONE_NAME@ && methods@[1].signature@ == names::PAINT_NATIVE_CLONE_SIG@,
        methods@[2].name@ == names::PAINT_NATIVE_RECYCLE_NAME@ && methods@[2].signature@ == names::PAINT_NATIVE_RECYCLE_SIG@,
        methods@[3].name@ == names::PAINT_NATIVE_SET_COLOR_NAME@ && methods@[3].signature@ == names::PAINT_NATIVE_SET_COLOR_SIG@,
        methods@[4].name@ == names::PAINT_NATIVE_GET_COLOR_NAME@ && methods@[4].signature@ == names::PAINT_NATIVE_GET_COLOR_SIG@,
        methods@[5].name@ == names::PAINT_NATIVE_SET_ALPHA_NAME@ && methods@[5].signature@ == names::PAINT_NATIVE_SET_ALPHA_SIG@,
        methods@[6].name@ == names::PAINT_NATIVE_GET_ALPHA_NAME@ && methods@[6].signature@ == names::PAINT_NATIVE_GET_ALPHA_SIG@,
        methods@[7].name@ == names::PAINT_NATIVE_SET_STYLE_NAME@ && methods@[7].signature@ == names::PAINT_NATIVE_SET_STYLE_SIG@,
        methods@[8].name@ == names::PAINT_NATIVE_GET_STYLE_NAME@ && methods@[8].signature@ == names::PAINT_NATIVE_GET_STYLE_SIG@,
        methods@[9].name@ == names::PAINT_NATIVE_SET_STROKE_WIDTH_NAME@ && methods@[9].signature@ == names::PAINT_NATIVE_SET_STROKE_WIDTH_SIG@,
        methods@[10].name@ == names::PAINT_NATIVE_GET_STROKE_WIDTH_NAME@ && methods@[10].signature@ == names::PAINT_NATIVE_GET_STROKE_WIDTH_SIG@,
        methods@[11].name@ == names::PAINT_NATIVE_SET_STROKE_CAP_NAME@ && methods@[11].signature@ == names::PAINT_NATIVE_SET_STROKE_CAP_SIG@,
        methods@[12].name@ == names::PAINT_NATIVE_GET_STROKE_CAP_NAME@ && methods@[12].signature@ == names::PAINT_NATIVE_GET_STROKE_CAP_SIG@,
        methods@[13].name@ == names::PAINT_NATIVE_SET_STROKE_JOIN_NAME@ && methods@[13].signature@ == names::PAINT_NATIVE_SET_STROKE_JOIN_SIG@,
        methods@[14].name@ == names::PAINT_NATIVE_GET_STROKE_JOIN_NAME@ && methods@[14].signature@ == names::PAINT_NATIVE_GET_STROKE_JOIN_SIG@,
        methods@[15].name@ == names::PAINT_NATIVE_SET_TEXT_SIZE_NAME@ && methods@[15].signature@ == names::PAINT_NATIVE_SET_TEXT_SIZE_SIG@,
        methods@[16].name@ == names::PAINT_NATIVE_GET_TEXT_SIZE_NAME@ && methods@[16].signature@ == names::PAINT_NATIVE_GET_TEXT_SIZE_SIG@,
        methods@[17].name@ == names::PAINT_NATIVE_SET_COLOR_FILTER_NAME@ && methods@[17].signature@ == names::PAINT_NATIVE_SET_COLOR_FILTER_SIG@,
        methods@[18].name@ == names::PAINT_NATIVE_SET_TEXT_ALIGN_NAME@ && methods@[18].signature@ == names::PAINT_NATIVE_SET_TEXT_ALIGN_SIG@,
{
    let mut methods: Vec<NativeName> = Vec::new();
    methods.push(NativeName { name: names::PAINT_NATIVE_CREATE_NAME, signature: names::PAINT_NATIVE_CREATE_SIG });
    methods.push(NativeName { name: names::PAINT_NATIVE_CLONE_NAME, signature: names::PAINT_NATIVE_CLONE_SIG });
    methods.push(NativeName { name: names::PAINT_NATIVE_RECYCLE_NAME, signature: names::PAINT_NATIVE_RECYCLE_SIG });
    methods.push(NativeName { name: names::PAINT_NATIVE_SET_COLOR_NAME, signature: names::PAINT_NATIVE_SET_COLOR_SIG });
    methods.push(NativeName { name: names::PAINT_NATIVE_GET_COLOR_NAME, signature: names::PAINT_NATIVE_GET_COLOR_SIG });
    methods.push(NativeName { name: names::PAINT_NATIVE_SET_ALPHA_NAME, signature: names::PAINT_NATIVE_SET_ALPHA_SIG });
    methods.push(NativeName { name: names::PAINT_NATIVE_GET_ALPHA_NAME, signature: names::PAINT_NATIVE_GET_ALPHA_SIG });
    methods.push(NativeName { name: names::PAINT_NATIVE_SET_STYLE_NAME, signature: names::PAINT_NATIVE_SET_STYLE_SIG });
    methods.push(NativeName { name: names::PAINT_NATIVE_GET_STYLE_NAME, signature: names::PAINT_NATIVE_GET_STYLE_SIG });
    methods.push(NativeName { name: names::PAINT_NATIVE_SET_STROKE_WIDTH_NAME, signature: names::PAINT_NATIVE_SET_STROKE_WIDTH_SIG });
    methods.push(NativeName { name: names::PAINT_NATIVE_GET_STROKE_WIDTH_NAME, signature: names::PAINT_NATIVE_GET_STROKE_WIDTH_SIG });
    methods.push(NativeName { name: names::PAINT_NATIVE_SET_STROKE_CAP_NAME, signature: names::PAINT_NATIVE_SET_STROKE_CAP_SIG });
    methods.push(NativeName { name: names::PAINT_NATIVE_GET_STROKE_CAP_NAME, signature: names::PAINT_NATIVE_GET_STROKE_CAP_SIG });
    methods.push(NativeName { name: names::PAINT_NATIVE_SET_STROKE_JOIN_NAME, signature: names::PAINT_NATIVE_SET_STROKE_JOIN_SIG });
    methods.push(NativeName { name: names::PAINT_NATIVE_GET_STROKE_JOIN_NAME, signature: names::PAINT_NATIVE_GET_STROKE_JOIN_SIG });
    methods.push(NativeName { name: names::PAINT_NATIVE_SET_TEXT_SIZE_NAME, signature: names::PAINT_NATIVE_SET_TEXT_SIZE_SIG });
    methods.push(NativeName { name: names::PAINT_NATIVE_GET_TEXT_SIZE_NAME, signature: names::PAINT_NATIVE_GET_TEXT_SIZE_SIG });
    methods.push(NativeName { name: names::PAINT_NATIVE_SET_COLOR_FILTER_NAME, signature: names::PAINT_NATIVE_SET_COLOR_FILTER_SIG });
    methods.push(NativeName { name: names::PAINT_NATIVE_SET_TEXT_ALIGN_NAME, signature: names::PAINT_NATIVE_SET_TEXT_ALIGN_SIG });
    assert(named(methods@) =~= paint_table());
    methods
}

/// The native methods of `android/graphics/Matrix`.
pub open spec fn matrix_table() -> Seq<(Seq<char>, Seq<char>)> {
    seq![
        (names::MATRIX_NATIVE_CREATE_NAME@, names::MATRIX_NATIVE_CREATE_SIG@),
        (names::MATRIX_FINALIZER_NAME@, names::MATRIX_FINALIZER_SIG@),
    ]
}

/// The native methods of `android/graphics/Matrix`.
pub fn matrix_natives() -> (methods: Vec<NativeName>)
    ensures
        named(methods@) == matrix_table(),
        methods@.len() == 2,
        methods@[0].name@ == names::MATRIX_NATIVE_CREATE_NAME@ && methods@[0].signature@ == names::MATRIX_NATIVE_CREATE_SIG@,
        methods@[1].name@ == names::MATRIX_FINALIZER_NAME@ && methods@[1].signature@ == names::MATRIX_FINALIZER_SIG@,
{
    let mut methods: Vec<NativeName> = Vec::new();
    methods.push(NativeName { name: names::MATRIX_NATIVE_CREATE_NAME, signature: names::MATRIX_NATIVE_CREATE_SIG });
    methods.push(NativeName { name: names::MATRIX_FINALIZER_NAME, signature: names::MATRIX_FINALIZER_SIG });
    assert(named(methods@) =~= matrix_table());
    methods
}

/// The native methods of `android/graphics/Path`.
pub open spec fn path_table() -> Seq<(Seq<char>, Seq<char>)> {
    seq![
        (names::PATH_NATIVE_CREATE_BUILDER_NAME@, names::PATH_NATIVE_CREATE_BUILDER_SIG@),
        (names::PATH_NATIVE_MOVE_TO_NAME@, names::PATH_NATIVE_MOVE_TO_SIG@),
        (names::PATH_NATIVE_LINE_TO_NAME@, names::PATH_NATIVE_LINE_TO_SIG@),
        (names::PATH_NATIVE_QUAD_TO_NAME@, names::PATH_NATIVE_QUAD_TO_SIG@),
        (names::PATH_NATIVE_CUBIC_TO_NAME@, names::PATH_NATIVE_CUBIC_TO_SIG@),
        (names::PATH_NATIVE_CLOSE_NAME@, names::PATH_NATIVE_CLOSE_SIG@),
        (names::PATH_NATIVE_CREATE_PATH_NAME@, names::PATH_NATIVE_CREATE_PATH_SIG@),
        (names::PATH_NATIVE_REF_PATH_NAME@, names::PATH_NATIVE_REF_PATH_SIG@),
        (names::PATH_NATIVE_RESET_NAME@, names::PATH_NATIVE_RESET_SIG@),
    ]
}

/// The native methods of `android/graphics/Path`.
pub fn path_natives() -> (methods: Vec<NativeName>)
    ensures
        named(methods@) == path_table(),
        methods@.len() == 9,
        methods@[0].name@ == names::PATH_NATIVE_CREATE_BUILDER_NAME@ && methods@[0].signature@ == names::PATH_NATIVE_CREATE_BUILDER_SIG@,
        methods@[1].name@ == names::PATH_NATIVE_MOVE_TO_NAME@ && methods@[1].signature@ == names::PATH_NATIVE_MOVE_TO_SIG@,
        methods@[2].name@ == names::PATH_NATIVE_LINE_TO_NAME@ && methods@[2].signature@ == names::PATH_NATIVE_LINE_TO_SIG@,
        methods@[3].name@ == names::PATH_NATIVE_QUAD_TO_NAME@ && methods@[3].signature@ == names::PATH_NATIVE_QUAD_TO_SIG@,
        methods@[4].name@ == names::PATH_NATIVE_CUBIC_TO_NAME@ && methods@[4].signature@ == names::PATH_NATIVE_CUBIC_TO_SIG@,
        methods@[5].name@ == names::PATH_NATIVE_CLOSE_NAME@ && methods@[5].signature@ == names::PATH_NATIVE_CLOSE_SIG@,
        methods@[6].name@ == names::PATH_NATIVE_CREATE_PATH_NAME@ && methods@[6].signature@ == names::PATH_NATIVE_CREATE_PATH_SIG@,
        methods@[7].name@ == names::PATH_NATIVE_REF_PATH_NAME@ && methods@[7].signature@ == names::PATH_NATIVE_REF_PATH_SIG@,
        methods@[8].name@ == names::PATH_NATIVE_RESET_NAME@ && methods@[8].signature@ == names::PATH_NATIVE_RESET_SIG@,
{
    let mut methods: Vec<NativeName> = Vec::new();
    methods.push(NativeName { name: names::PATH_NATIVE_CREATE_BUILDER_NAME, signature: names::PATH_NATIVE_CREATE_BUILDER_SIG });
    methods.push(NativeName { name: names::PATH_NATIVE_MOVE_TO_NAME, signature: names::PATH_NATIVE_MOVE_TO_SIG });
    methods.push(NativeName { name: names::PATH_NATIVE_LINE_TO_NAME, signature: names::PATH_NATIVE_LINE_TO_SIG });
    methods.push(NativeName { name: names::PATH_NATIVE_QUAD_TO_NAME, signature: names::PATH_NATIVE_QUAD_TO_SIG });
    methods.push(NativeName { name: names::PATH_NATIVE_CUBIC_TO_NAME, signature: names::PATH_NATIVE_CUBIC_TO_SIG });
    methods.push(NativeName { name: names::PATH_NATIVE_CLOSE_NAME, signature: names::PATH_NATIVE_CLOSE_SIG });
    methods.push(NativeName { name: names::PATH_NATIVE_CREATE_PATH_NAME, signature: names::PATH_NATIVE_CREATE_PATH_SIG });
    methods.push(NativeName { name: names::PATH_NATIVE_REF_PATH_NAME, signature: names::PATH_NATIVE_REF_PATH_SIG });
    methods.push(NativeName { name: names::PATH_NATIVE_RESET_NAME, signature: names::PATH_NATIVE_RESET_SIG });
    assert(named(methods@) =~= path_table());
    methods
}

/// The native methods of `android/graphics/Canvas`.
pub open spec fn canvas_table() -> Seq<(Seq<char>, Seq<char>)> {
    seq![
        (names::CANVAS_N_DRAW_COLOR_NAME@, names::CANVAS_N_DRAW_COLOR_SIG@),
        (names::CANVAS_N_DRAW_RECT_NAME@, names::CANVAS_N_DRAW_RECT_SIG@),
        (names::CANVAS_N_DRAW_CIRCLE_NAME@, names::CANVAS_N_DRAW_CIRCLE_SIG@),
        (names::CANVAS_N_DRAW_PATH_NAME@, names::CANVAS_N_DRAW_PATH_SIG@),
    ]
}

/// The native methods of `android/graphics/Canvas`.
pub fn canvas_natives() -> (methods: Vec<NativeName>)
    ensures
        named(methods@) == canvas_table(),
        methods@.len() == 4,
        methods@[0].name@ == names::CANVAS_N_DRAW_COLOR_NAME@ && methods@[0].signature@ == names::CANVAS_N_DRAW_COLOR_SIG@,
        methods@[1].name@ == names::CANVAS_N_DRAW_RECT_NAME@ && methods@[1].signature@ == names::CANVAS_N_DRAW_RECT_SIG@,
        methods@[2].name@ == names::CANVAS_N_DRAW_CIRCLE_NAME@ && methods@[2].signature@ == names::CANVAS_N_DRAW_CIRCLE_SIG@,
        methods@[3].name@ == names::CANVAS_N_DRAW_PATH_NAME@ && methods@[3].signature@ == names::CANVAS_N_DRAW_PATH_SIG@,
{
    let mut methods: Vec<NativeName> = Vec::new();
    methods.push(NativeName { name: names::CANVAS_N_DRAW_COLOR_NAME, signature: names::CANVAS_N_DRAW_COLOR_SIG });
    methods.push(NativeName { name: names::CANVAS_N_DRAW_RECT_NAME, signature: names::CANVAS_N_DRAW_RECT_SIG });
    methods.push(NativeName { name: names::CANVAS_N_DRAW_CIRCLE_NAME, signature: names::CANVAS_N_DRAW_CIRCLE_SIG });
    methods.push(NativeName { name: names::CANVAS_N_DRAW_PATH_NAME, signature: names::CANVAS_N_DRAW_PATH_SIG });
    assert(named(methods@) =~= canvas_table());
    methods
}

/// The native methods of `java/lang/Runtime`.
pub open spec fn runtime_native_load_table() -> Seq<(Seq<char>, Seq<char>)> {
    seq![
        (names::NATIVE_LOAD_NAME@, names::NATIVE_LOAD_SIG@),
    ]
}

/// The native methods of `java/lang/Runtime`.
pub fn runtime_native_load_natives() -> (methods: Vec<NativeName>)
    ensures
        named(methods@) == runtime_native_load_table(),
        methods@.len() == 1,
        methods@[0].name@ == names::NATIVE_LOAD_NAME@ && methods@[0].signature@ == names::NATIVE_LOAD_SIG@,
{
    let mut methods: Vec<NativeName> = Vec::new();
    methods.push(NativeName { name: names::NATIVE_LOAD_NAME, signature: names::NATIVE_LOAD_SIG });
    assert(named(methods@) =~= runtime_native_load_table());
    methods
}

/// What is bound for a group of native methods, class by class.
pub open spec fn natives_table(group: NativeGroup) -> Seq<
    (Seq<char>, BindPolicy, Seq<(Seq<char>, Seq<char>)>),
> {
    match group {
        NativeGroup::Context => seq![
            (names::CONTEXT_CLASS@, BindPolicy::Required, context_table()),
        ],
        NativeGroup::Log => seq![
            (names::LOG_CLASS@, BindPolicy::Required, log_table()),
        ],
        NativeGroup::Process => seq![
            (names::PROCESS_CLASS@, BindPolicy::Required, process_table()),
        ],
        NativeGroup::AssetManager => seq![
            (names::ASSET_MANAGER_CLASS@, BindPolicy::Required, asset_manager_table()),
        ],
        NativeGroup::AssetStream => seq![
            (names::ASSET_MANAGER_CLASS@, BindPolicy::Required, asset_stream_table()),
        ],
        NativeGroup::XmlBlock => seq![
            (names::XML_BLOCK_CLASS@, BindPolicy::Required, xml_block_table()),
        ],
        NativeGroup::Environment => seq![
            (names::ENVIRONMENT_CLASS@, BindPolicy::Required, environment_table()),
        ],
        NativeGroup::SystemClock => seq![
            (names::SYSTEM_CLOCK_CLASS@, BindPolicy::Required, system_clock_table()),
        ],
        NativeGroup::MessageQueue => seq![
            (names::MESSAGE_QUEUE_CLASS@, BindPolicy::Required, message_queue_table()),
        ],
        NativeGroup::SensorManager => seq![
            (names::SENSOR_MANAGER_CLASS@, BindPolicy::Required, sensor_manager_table()),
        ],
        NativeGroup::Connectivity => seq![
            (names::CONNECTIVITY_MANAGER_CLASS@, BindPolicy::Required, connectivity_table()),
        ],
        NativeGroup::ActivityManagerMemory => seq![
            (names::ACTIVITY_MANAGER_CLASS@, BindPolicy::BestEffort, activity_manager_memory_table()),
        ],
        NativeGroup::Vibrator => seq![
            (names::VIBRATOR_CLASS@, BindPolicy::Required, vibrator_table()),
        ],
        NativeGroup::Sqlite => Seq::empty(),
        NativeGroup::Activity => seq![
            (names::ACTIVITY_CLASS@, BindPolicy::Required, activity_table()),
        ],
        NativeGroup::View => seq![
            (names::VIEW_CLASS@, BindPolicy::BestEffort, view_table()),
        ],
        NativeGroup::ViewTreeObserver => seq![
            (names::VIEW_TREE_OBSERVER_CLASS@, BindPolicy::Required, view_tree_observer_table()),
        ],
        NativeGroup::InputMethodManager => seq![
            (names::INPUT_METHOD_MANAGER_CLASS@, BindPolicy::Required, input_method_manager_table()),
        ],
        NativeGroup::Dialog => seq![
            (names::DIALOG_CLASS@, BindPolicy::Required, dialog_table()),
        ],
        NativeGroup::Window => seq![
            (names::WINDOW_CLASS@, BindPolicy::Required, window_table()),
        ],
        NativeGroup::TextView => seq![
            (names::TEXT_VIEW_CLASS@, BindPolicy::BestEffort, text_view_table()),
        ],
        NativeGroup::ImageView => seq![
            (names::IMAGE_VIEW_CLASS@, BindPolicy::BestEffort, image_view_table()),
        ],
        NativeGroup::ImageButton => seq![
            (names::IMAGE_BUTTON_CLASS@, BindPolicy::BestEffort, image_button_table()),
        ],
        NativeGroup::SurfaceView => seq![
            (names::SURFACE_VIEW_CLASS@, BindPolicy::BestEffort, surface_view_table()),
        ],
        NativeGroup::ViewSubclassConstructors => seq![
            (names::BUTTON_CLASS@, BindPolicy::BestEffort, view_subclass_table()),
            (names::EDIT_TEXT_CLASS@, BindPolicy::BestEffort, view_subclass_table()),
            (names::PROGRESS_BAR_CLASS@, BindPolicy::BestEffort, view_subclass_table()),
            (names::CHECK_BOX_CLASS@, BindPolicy::BestEffort, view_subclass_table()),
            (names::RADIO_BUTTON_CLASS@, BindPolicy::BestEffort, view_subclass_table()),
            (names::SEEK_BAR_CLASS@, BindPolicy::BestEffort, view_subclass_table()),
            (names::SPINNER_CLASS@, BindPolicy::BestEffort, view_subclass_table()),
            (names::SCROLL_VIEW_CLASS@, BindPolicy::BestEffort, view_subclass_table()),
        ],
        NativeGroup::WebView => seq![
            (names::WEB_VIEW_CLASS@, BindPolicy::BestEffort, web_view_table()),
        ],
        NativeGroup::WebSettings => seq![
            (names::WEB_SETTINGS_CLASS@, BindPolicy::BestEffort, web_settings_table()),
        ],
        NativeGroup::CookieManager => seq![
            (names::COOKIE_MANAGER_CLASS@, BindPolicy::BestEffort, cookie_manager_table()),
        ],
        NativeGroup::WidgetPropertySetters => seq![
            (names::BUTTON_CLASS@, BindPolicy::BestEffort, button_table()),
            (names::EDIT_TEXT_CLASS@, BindPolicy::BestEffort, edit_text_table()),
            (names::CHECK_BOX_CLASS@, BindPolicy::BestEffort, check_box_table()),
            (names::RADIO_BUTTON_CLASS@, BindPolicy::BestEffort, radio_button_table()),
            (names::PROGRESS_BAR_CLASS@, BindPolicy::BestEffort, progress_bar_table()),
            (names::SEEK_BAR_CLASS@, BindPolicy::BestEffort, seek_bar_table()),
            (names::SPINNER_CLASS@, BindPolicy::BestEffort, spinner_table()),
            (names::SCROLL_VIEW_CLASS@, BindPolicy::BestEffort, scroll_view_table()),
        ],
        NativeGroup::Drawable => seq![
            (names::DRAWABLE_CLASS@, BindPolicy::BestEffort, drawable_table()),
            (names::DRAWABLE_CONTAINER_CLASS@, BindPolicy::BestEffort, drawable_container_table()),
            (names::NINE_PATCH_DRAWABLE_CLASS@, BindPolicy::BestEffort, nine_patch_drawable_table()),
        ],
        NativeGroup::Bitmap => seq![
            (names::BITMAP_FACTORY_CLASS@, BindPolicy::BestEffort, bitmap_factory_table()),
            (names::BITMAP_CLASS@, BindPolicy::BestEffort, bitmap_table()),
        ],
        NativeGroup::ViewGroup => seq![
            (names::VIEW_GROUP_CLASS@, BindPolicy::BestEffort, view_group_table()),
        ],
        NativeGroup::Paint => seq![
            (names::PAINT_CLASS@, BindPolicy::BestEffort, paint_table()),
        ],
        NativeGroup::Matrix => seq![
            (names::MATRIX_CLASS@, BindPolicy::Required, matrix_table()),
        ],
        NativeGroup::Path => seq![
            (names::PATH_CLASS@, BindPolicy::Required, path_table()),
        ],
        NativeGroup::Canvas => seq![
            (names::CANVAS_CLASS@, BindPolicy::Optional, canvas_table()),
        ],
        NativeGroup::RuntimeNativeLoad => seq![
            (names::RUNTIME_CLASS@, BindPolicy::Optional, runtime_native_load_table()),
        ],
    }
}

/// What is bound for a group of native methods, class by class. The database's are
/// bound by the database.
pub fn natives_of(group: NativeGroup) -> (natives: Vec<ClassNatives>)
    ensures
        described(natives@) == natives_table(group),
{
    let mut natives: Vec<ClassNatives> = Vec::new();
    match group {
        NativeGroup::Context => {
            natives.push(class_natives(names::CONTEXT_CLASS, BindPolicy::Required, context_natives()));
        },
        NativeGroup::Log => {
            natives.push(class_natives(names::LOG_CLASS, BindPolicy::Required, log_natives()));
        },
        NativeGroup::Process => {
            natives.push(class_natives(names::PROCESS_CLASS, BindPolicy::Required, process_natives()));
        },
        NativeGroup::AssetManager => {
            natives.push(class_natives(names::ASSET_MANAGER_CLASS, BindPolicy::Required, asset_manager_natives()));
        },
        NativeGroup::AssetStream => {
            natives.push(class_natives(names::ASSET_MANAGER_CLASS, BindPolicy::Required, asset_stream_natives()));
        },
        NativeGroup::XmlBlock => {
            natives.push(class_natives(names::XML_BLOCK_CLASS, BindPolicy::Required, xml_block_natives()));
        },
        NativeGroup::Environment => {
            natives.push(class_natives(names::ENVIRONMENT_CLASS, BindPolicy::Required, environment_natives()));
        },
        NativeGroup::SystemClock => {
            natives.push(class_natives(names::SYSTEM_CLOCK_CLASS, BindPolicy::Required, system_clock_natives()));
        },
        NativeGroup::MessageQueue => {
            natives.push(class_natives(names::MESSAGE_QUEUE_CLASS, BindPolicy::Required, message_queue_natives()));
        },
        NativeGroup::SensorManager => {
            natives.push(class_natives(names::SENSOR_MANAGER_CLASS, BindPolicy::Required, sensor_manager_natives()));
        },
        NativeGroup::Connectivity => {
            natives.push(class_natives(names::CONNECTIVITY_MANAGER_CLASS, BindPolicy::Required, connectivity_natives()));
        },
        NativeGroup::ActivityManagerMemory => {
            natives.push(class_natives(names::ACTIVITY_MANAGER_CLASS, BindPolicy::BestEffort, activity_manager_memory_natives()));
        },
        NativeGroup::Vibrator => {
            natives.push(class_natives(names::VIBRATOR_CLASS, BindPolicy::Required, vibrator_natives()));
        },
        NativeGroup::Sqlite => {},
        NativeGroup::Activity => {
            natives.push(class_natives(names::ACTIVITY_CLASS, BindPolicy::Required, activity_natives()));
        },
        NativeGroup::View => {
            natives.push(class_natives(names::VIEW_CLASS, BindPolicy::BestEffort, view_natives()));
        },
        NativeGroup::ViewTreeObserver => {
            natives.push(class_natives(names::VIEW_TREE_OBSERVER_CLASS, BindPolicy::Required, view_tree_observer_natives()));
        },
        NativeGroup::InputMethodManager => {
            natives.push(class_natives(names::INPUT_METHOD_MANAGER_CLASS, BindPolicy::Required, input_method_manager_natives()));
        },
        NativeGroup::Dialog => {
            natives.push(class_natives(names::DIALOG_CLASS, BindPolicy::Required, dialog_natives()));
        },
        NativeGroup::Window => {
            natives.push(class_natives(names::WINDOW_CLASS, BindPolicy::Required, window_natives()));
        },
        NativeGroup::TextView => {
            natives.push(class_natives(names::TEXT_VIEW_CLASS, BindPolicy::BestEffort, text_view_natives()));
        },
        NativeGroup::ImageView => {
            natives.push(class_natives(names::IMAGE_VIEW_CLASS, BindPolicy::BestEffort, image_view_natives()));
        },
        NativeGroup::ImageButton => {
            natives.push(class_natives(names::IMAGE_BUTTON_CLASS, BindPolicy::BestEffort, image_button_natives()));
        },
        NativeGroup::SurfaceView => {
            natives.push(class_natives(names::SURFACE_VIEW_CLASS, BindPolicy::BestEffort, surface_view_natives()));
        },
        NativeGroup::ViewSubclassConstructors => {
            natives.push(class_natives(names::BUTTON_CLASS, BindPolicy::BestEffort, view_subclass_natives()));
            natives.push(class_natives(names::EDIT_TEXT_CLASS, BindPolicy::BestEffort, view_subclass_natives()));
            natives.push(class_natives(names::PROGRESS_BAR_CLASS, BindPolicy::BestEffort, view_subclass_natives()));
            natives.push(class_natives(names::CHECK_BOX_CLASS, BindPolicy::BestEffort, view_subclass_natives()));
            natives.push(class_natives(names::RADIO_BUTTON_CLASS, BindPolicy::BestEffort, view_subclass_natives()));
            natives.push(class_natives(names::SEEK_BAR_CLASS, BindPolicy::BestEffort, view_subclass_natives()));
            natives.push(class_natives(names::SPINNER_CLASS, BindPolicy::BestEffort, view_subclass_natives()));
            natives.push(class_natives(names::SCROLL_VIEW_CLASS, BindPolicy::BestEffort, view_subclass_natives()));
        },
        NativeGroup::WebView => {
            natives.push(class_natives(names::WEB_VIEW_CLASS, BindPolicy::BestEffort, web_view_natives()));
        },
        NativeGroup::WebSettings => {
            natives.push(class_natives(names::WEB_SETTINGS_CLASS, BindPolicy::BestEffort, web_settings_natives()));
        },
        NativeGroup::CookieManager => {
            natives.push(class_natives(names::COOKIE_MANAGER_CLASS, BindPolicy::BestEffort, cookie_manager_natives()));
        },
        NativeGroup::WidgetPropertySetters => {
            natives.push(class_natives(names::BUTTON_CLASS, BindPolicy::BestEffort, button_natives()));
            natives.push(class_natives(names::EDIT_TEXT_CLASS, BindPolicy::BestEffort, edit_text_natives()));
            natives.push(class_natives(names::CHECK_BOX_CLASS, BindPolicy::BestEffort, check_box_natives()));
            natives.push(class_natives(names::RADIO_BUTTON_CLASS, BindPolicy::BestEffort, radio_button_natives()));
            natives.push(class_natives(names::PROGRESS_BAR_CLASS, BindPolicy::BestEffort, progress_bar_natives()));
            natives.push(class_natives(names::SEEK_BAR_CLASS, BindPolicy::BestEffort, seek_bar_natives()));
            natives.push(class_natives(names::SPINNER_CLASS, BindPolicy::BestEffort, spinner_natives()));
            natives.push(class_natives(names::SCROLL_VIEW_CLASS, BindPolicy::BestEffort, scroll_view_natives()));
        },
        NativeGroup::Drawable => {
            natives.push(class_natives(names::DRAWABLE_CLASS, BindPolicy::BestEffort, drawable_natives()));
            natives.push(class_natives(names::DRAWABLE_CONTAINER_CLASS, BindPolicy::BestEffort, drawable_container_natives()));
            natives.push(class_natives(names::NINE_PATCH_DRAWABLE_CLASS, BindPolicy::BestEffort, nine_patch_drawable_natives()));
        },
        NativeGroup::Bitmap => {
            natives.push(class_natives(names::BITMAP_FACTORY_CLASS, BindPolicy::BestEffort, bitmap_factory_natives()));
            natives.push(class_natives(names::BITMAP_CLASS, BindPolicy::BestEffort, bitmap_natives()));
        },
        NativeGroup::ViewGroup => {
            natives.push(class_natives(names::VIEW_GROUP_CLASS, BindPolicy::BestEffort, view_group_natives()));
        },
        NativeGroup::Paint => {
            natives.push(class_natives(names::PAINT_CLASS, BindPolicy::BestEffort, paint_natives()));
        },
        NativeGroup::Matrix => {
            natives.push(class_natives(names::MATRIX_CLASS, BindPolicy::Required, matrix_natives()));
        },
        NativeGroup::Path => {
            natives.push(class_natives(names::PATH_CLASS, BindPolicy::Required, path_natives()));
        },
        NativeGroup::Canvas => {
            natives.push(class_natives(names::CANVAS_CLASS, BindPolicy::Optional, canvas_natives()));
        },
        NativeGroup::RuntimeNativeLoad => {
            natives.push(class_natives(names::RUNTIME_CLASS, BindPolicy::Optional, runtime_native_load_natives()));
        },
    }
    assert(described(natives@) =~= natives_table(group));
    natives
}

fn class_natives(class: &'static str, policy: BindPolicy, methods: Vec<NativeName>) -> (natives:
    ClassNatives)
    ensures
        natives.class == class,
        natives.policy == policy,
        natives.methods == methods,
{
    ClassNatives { class, policy, methods }
}

/// How many of the attempts succeeded.
pub open spec fn successes(outcomes: Seq<bool>) -> nat
    decreases outcomes.len(),
{
    if outcomes.len() == 0 {
        0
    } else {
        successes(outcomes.drop_last()) + if outcomes.last() {
            1nat
        } else {
            0nat
        }
    }
}

proof fn lemma_successes(outcomes: Seq<bool>)
    ensures
        successes(outcomes) <= outcomes.len(),
    decreases outcomes.len(),
{
    if outcomes.len() > 0 {
        lemma_successes(outcomes.drop_last());
    }
}

/// Tries `step` on each binding, in order, whatever came of those before it, and
/// returns how many times it succeeded.
pub fn fold_best_effort<B, F: Fn(&B) -> bool>(bindings: &[B], step: F) -> (bound: u32)
    requires
        bindings@.len() <= u32::MAX,
        forall|i: int| 0 <= i < bindings@.len() ==> call_requires(step, (&#[trigger] bindings@[i],)),
    ensures
        exists|outcomes: Seq<bool>|
            {
                &&& outcomes.len() == bindings@.len()
                &&& #[trigger] successes(outcomes) == bound
                &&& forall|i: int|
                    0 <= i < bindings@.len() ==> call_ensures(
                        step,
                        (&bindings@[i],),
                        #[trigger] outcomes[i],
                    )
            },
{
    let mut bound: u32 = 0;
    let ghost mut outcomes: Seq<bool> = Seq::empty();
    let mut i: usize = 0;
    while i < bindings.len()
        invariant
            i <= bindings@.len() <= u32::MAX,
            outcomes.len() == i,
            successes(outcomes) == bound,
            forall|k: int|
                0 <= k < bindings@.len() ==> call_requires(step, (&#[trigger] bindings@[k],)),
            forall|k: int|
                0 <= k < i ==> call_ensures(step, (&bindings@[k],), #[trigger] outcomes[k]),
        decreases bindings@.len() - i,
    {
        let succeeded = step(&bindings[i]);
        proof {
            lemma_successes(outcomes);
            assert(outcomes.push(succeeded).drop_last() =~= outcomes);
            outcomes = outcomes.push(succeeded);
        }
        if succeeded {
            bound += 1;
        }
        i += 1;
    }
    bound
}

/// Successes are counted one by one.
pub proof fn law_successes_are_counted(outcomes: Seq<bool>)
    ensures
        successes(Seq::<bool>::empty()) == 0,
        successes(outcomes.push(true)) == successes(outcomes) + 1,
        successes(outcomes.push(false)) == successes(outcomes),
{
    assert(outcomes.push(true).drop_last() =~= outcomes);
    assert(outcomes.push(false).drop_last() =~= outcomes);
}

/// Each group of native methods is bound on its own classes. The basic ones are required;
/// those of views, widgets, pictures and the web are bound as far as they can be, and those
/// for drawing and for loading libraries all together or not at all.
#[verifier::rlimit(60)]
pub proof fn law_groups_are_bound_on_their_classes(group: NativeGroup)
    ensures
        match group {
            NativeGroup::Context => {
                &&& natives_table(group).len() == 1
                &&& natives_table(group)[0].0 == names::CONTEXT_CLASS@
                &&& natives_table(group)[0].1 == BindPolicy::Required
                &&& natives_table(group)[0].2 == context_table()
            },
            NativeGroup::Log => {
                &&& natives_table(group).len() == 1
                &&& natives_table(group)[0].0 == names::LOG_CLASS@
                &&& natives_table(group)[0].1 == BindPolicy::Required
                &&& natives_table(group)[0].2 == log_table()
            },
            NativeGroup::Process => {
                &&& natives_table(group).len() == 1
                &&& natives_table(group)[0].0 == names::PROCESS_CLASS@
                &&& natives_table(group)[0].1 == BindPolicy::Required
                &&& natives_table(group)[0].2 == process_table()
            },
            NativeGroup::AssetManager => {
                &&& natives_table(group).len() == 1
                &&& natives_table(group)[0].0 == names::ASSET_MANAGER_CLASS@
                &&& natives_table(group)[0].1 == BindPolicy::Required
                &&& natives_table(group)[0].2 == asset_manager_table()
            },
            NativeGroup::AssetStream => {
                &&& natives_table(group).len() == 1
                &&& natives_table(group)[0].0 == names::ASSET_MANAGER_CLASS@
                &&& natives_table(group)[0].1 == BindPolicy::Required
                &&& natives_table(group)[0].2 == asset_stream_table()
            },
            NativeGroup::XmlBlock => {
                &&& natives_table(group).len() == 1
                &&& natives_table(group)[0].0 == names::XML_BLOCK_CLASS@
                &&& natives_table(group)[0].1 == BindPolicy::Required
                &&& natives_table(group)[0].2 == xml_block_table()
            },
            NativeGroup::Environment => {
                &&& natives_table(group).len() == 1
                &&& natives_table(group)[0].0 == names::ENVIRONMENT_CLASS@
                &&& natives_table(group)[0].1 == BindPolicy::Required
                &&& natives_table(group)[0].2 == environment_table()
            },
            NativeGroup::SystemClock => {
                &&& natives_table(group).len() == 1
                &&& natives_table(group)[0].0 == names::SYSTEM_CLOCK_CLASS@
                &&& natives_table(group)[0].1 == BindPolicy::Required
                &&& natives_table(group)[0].2 == system_clock_table()
            },
            NativeGroup::MessageQueue => {
                &&& natives_table(group).len() == 1
                &&& natives_table(group)[0].0 == names::MESSAGE_QUEUE_CLASS@
                &&& natives_table(group)[0].1 == BindPolicy::Required
                &&& natives_table(group)[0].2 == message_queue_table()
            },
            NativeGroup::SensorManager => {
                &&& natives_table(group).len() == 1
                &&& natives_table(group)[0].0 == names::SENSOR_MANAGER_CLASS@
                &&& natives_table(group)[0].1 == BindPolicy::Required
                &&& natives_table(group)[0].2 == sensor_manager_table()
            },
            NativeGroup::Connectivity => {
                &&& natives_table(group).len() == 1
                &&& natives_table(group)[0].0 == names::CONNECTIVITY_MANAGER_CLASS@
                &&& natives_table(group)[0].1 == BindPolicy::Required
                &&& natives_table(group)[0].2 == connectivity_table()
            },
            NativeGroup::ActivityManagerMemory => {
                &&& natives_table(group).len() == 1
                &&& natives_table(group)[0].0 == names::ACTIVITY_MANAGER_CLASS@
                &&& natives_table(group)[0].1 == BindPolicy::BestEffort
                &&& natives_table(group)[0].2 == activity_manager_memory_table()
            },
            NativeGroup::Vibrator => {
                &&& natives_table(group).len() == 1
                &&& natives_table(group)[0].0 == names::VIBRATOR_CLASS@
                &&& natives_table(group)[0].1 == BindPolicy::Required
                &&& natives_table(group)[0].2 == vibrator_table()
            },
            NativeGroup::Sqlite => natives_table(group).len() == 0,
            NativeGroup::Activity => {
                &&& natives_table(group).len() == 1
                &&& natives_table(group)[0].0 == names::ACTIVITY_CLASS@
                &&& natives_table(group)[0].1 == BindPolicy::Required
                &&& natives_table(group)[0].2 == activity_table()
            },
            NativeGroup::View => {
                &&& natives_table(group).len() == 1
                &&& natives_table(group)[0].0 == names::VIEW_CLASS@
                &&& natives_table(group)[0].1 == BindPolicy::BestEffort
                &&& natives_table(group)[0].2 == view_table()
            },
            NativeGroup::ViewTreeObserver => {
                &&& natives_table(group).len() == 1
                &&& natives_table(group)[0].0 == names::VIEW_TREE_OBSERVER_CLASS@
                &&& natives_table(group)[0].1 == BindPolicy::Required
                &&& natives_table(group)[0].2 == view_tree_observer_table()
            },
            NativeGroup::InputMethodManager => {
                &&& natives_table(group).len() == 1
                &&& natives_table(group)[0].0 == names::INPUT_METHOD_MANAGER_CLASS@
                &&& natives_table(group)[0].1 == BindPolicy::Required
                &&& natives_table(group)[0].2 == input_method_manager_table()
            },
            NativeGroup::Dialog => {
                &&& natives_table(group).len() == 1
                &&& natives_table(group)[0].0 == names::DIALOG_CLASS@
                &&& natives_table(group)[0].1 == BindPolicy::Required
                &&& natives_table(group)[0].2 == dialog_table()
            },
            NativeGroup::Window => {
                &&& natives_table(group).len() == 1
                &&& natives_table(group)[0].0 == names::WINDOW_CLASS@
                &&& natives_table(group)[0].1 == BindPolicy::Required
                &&& natives_table(group)[0].2 == window_table()
            },
            NativeGroup::TextView => {
                &&& natives_table(group).len() == 1
                &&& natives_table(group)[0].0 == names::TEXT_VIEW_CLASS@
                &&& natives_table(group)[0].1 == BindPolicy::BestEffort
                &&& natives_table(group)[0].2 == text_view_table()
            },
            NativeGroup::ImageView => {
                &&& natives_table(group).len() == 1
                &&& natives_table(group)[0].0 == names::IMAGE_VIEW_CLASS@
                &&& natives_table(group)[0].1 == BindPolicy::BestEffort
                &&& natives_table(group)[0].2 == image_view_table()
            },
            NativeGroup::ImageButton => {
                &&& natives_table(group).len() == 1
                &&& natives_table(group)[0].0 == names::IMAGE_BUTTON_CLASS@
                &&& natives_table(group)[0].1 == BindPolicy::BestEffort
                &&& natives_table(group)[0].2 == image_button_table()
            },
            NativeGroup::SurfaceView => {
                &&& natives_table(group).len() == 1
                &&& natives_table(group)[0].0 == names::SURFACE_VIEW_CLASS@
                &&& natives_table(group)[0].1 == BindPolicy::BestEffort
                &&& natives_table(group)[0].2 == surface_view_table()
            },
            NativeGroup::ViewSubclassConstructors => {
                &&& natives_table(group).len() == 8
                &&& natives_table(group)[0].0 == names::BUTTON_CLASS@
                &&& natives_table(group)[0].1 == BindPolicy::BestEffort
                &&& natives_table(group)[0].2 == view_subclass_table()
                &&& natives_table(group)[1].0 == names::EDIT_TEXT_CLASS@
                &&& natives_table(group)[1].1 == BindPolicy::BestEffort
                &&& natives_table(group)[1].2 == view_subclass_table()
                &&& natives_table(group)[2].0 == names::PROGRESS_BAR_CLASS@
                &&& natives_table(group)[2].1 == BindPolicy::BestEffort
                &&& natives_table(group)[2].2 == view_subclass_table()
                &&& natives_table(group)[3].0 == names::CHECK_BOX_CLASS@
                &&& natives_table(group)[3].1 == BindPolicy::BestEffort
                &&& natives_table(group)[3].2 == view_subclass_table()
                &&& natives_table(group)[4].0 == names::RADIO_BUTTON_CLASS@
                &&& natives_table(group)[4].1 == BindPolicy::BestEffort
                &&& natives_table(group)[4].2 == view_subclass_table()
                &&& natives_table(group)[5].0 == names::SEEK_BAR_CLASS@
                &&& natives_table(group)[5].1 == BindPolicy::BestEffort
                &&& natives_table(group)[5].2 == view_subclass_table()
                &&& natives_table(group)[6].0 == names::SPINNER_CLASS@
                &&& natives_table(group)[6].1 == BindPolicy::BestEffort
                &&& natives_table(group)[6].2 == view_subclass_table()
                &&& natives_table(group)[7].0 == names::SCROLL_VIEW_CLASS@
                &&& natives_table(group)[7].1 == BindPolicy::BestEffort
                &&& natives_table(group)[7].2 == view_subclass_table()
            },
            NativeGroup::WebView => {
                &&& natives_table(group).len() == 1
                &&& natives_table(group)[0].0 == names::WEB_VIEW_CLASS@
                &&& natives_table(group)[0].1 == BindPolicy::BestEffort
                &&& natives_table(group)[0].2 == web_view_table()
            },
            NativeGroup::WebSettings => {
                &&& natives_table(group).len() == 1
                &&& natives_table(group)[0].0 == names::WEB_SETTINGS_CLASS@
                &&& natives_table(group)[0].1 == BindPolicy::BestEffort
                &&& natives_table(group)[0].2 == web_settings_table()
            },
            NativeGroup::CookieManager => {
                &&& natives_table(group).len() == 1
                &&& natives_table(group)[0].0 == names::COOKIE_MANAGER_CLASS@
                &&& natives_table(group)[0].1 == BindPolicy::BestEffort
                &&& natives_table(group)[0].2 == cookie_manager_table()
            },
            NativeGroup::WidgetPropertySetters => {
                &&& natives_table(group).len() == 8
                &&& natives_table(group)[0].0 == names::BUTTON_CLASS@
                &&& natives_table(group)[0].1 == BindPolicy::BestEffort
                &&& natives_table(group)[0].2 == button_table()
                &&& natives_table(group)[1].0 == names::EDIT_TEXT_CLASS@
                &&& natives_table(group)[1].1 == BindPolicy::BestEffort
                &&& natives_table(group)[1].2 == edit_text_table()
                &&& natives_table(group)[2].0 == names::CHECK_BOX_CLASS@
                &&& natives_table(group)[2].1 == BindPolicy::BestEffort
                &&& natives_table(group)[2].2 == check_box_table()
                &&& natives_table(group)[3].0 == names::RADIO_BUTTON_CLASS@
                &&& natives_table(group)[3].1 == BindPolicy::BestEffort
                &&& natives_table(group)[3].2 == radio_button_table()
                &&& natives_table(group)[4].0 == names::PROGRESS_BAR_CLASS@
                &&& natives_table(group)[4].1 == BindPolicy::BestEffort
                &&& natives_table(group)[4].2 == progress_bar_table()
                &&& natives_table(group)[5].0 == names::SEEK_BAR_CLASS@
                &&& natives_table(group)[5].1 == BindPolicy::BestEffort
                &&& natives_table(group)[5].2 == seek_bar_table()
                &&& natives_table(group)[6].0 == names::SPINNER_CLASS@
                &&& natives_table(group)[6].1 == BindPolicy::BestEffort
                &&& natives_table(group)[6].2 == spinner_table()
                &&& natives_table(group)[7].0 == names::SCROLL_VIEW_CLASS@
                &&& natives_table(group)[7].1 == BindPolicy::BestEffort
                &&& natives_table(group)[7].2 == scroll_view_table()
            },
            NativeGroup::Drawable => {
                &&& natives_table(group).len() == 3
                &&& natives_table(group)[0].0 == names::DRAWABLE_CLASS@
                &&& natives_table(group)[0].1 == BindPolicy::BestEffort
                &&& natives_table(group)[0].2 == drawable_table()
                &&& natives_table(group)[1].0 == names::DRAWABLE_CONTAINER_CLASS@
                &&& natives_table(group)[1].1 == BindPolicy::BestEffort
                &&& natives_table(group)[1].2 == drawable_container_table()
                &&& natives_table(group)[2].0 == names::NINE_PATCH_DRAWABLE_CLASS@
                &&& natives_table(group)[2].1 == BindPolicy::BestEffort
                &&& natives_table(group)[2].2 == nine_patch_drawable_table()
            },
            NativeGroup::Bitmap => {
                &&& natives_table(group).len() == 2
                &&& natives_table(group)[0].0 == names::BITMAP_FACTORY_CLASS@
                &&& natives_table(group)[0].1 == BindPolicy::BestEffort
                &&& natives_table(group)[0].2 == bitmap_factory_table()
                &&& natives_table(group)[1].0 == names::BITMAP_CLASS@
                &&& natives_table(group)[1].1 == BindPolicy::BestEffort
                &&& natives_table(group)[1].2 == bitmap_table()
            },
            NativeGroup::ViewGroup => {
                &&& natives_table(group).len() == 1
                &&& natives_table(group)[0].0 == names::VIEW_GROUP_CLASS@
                &&& natives_table(group)[0].1 == BindPolicy::BestEffort
                &&& natives_table(group)[0].2 == view_group_table()
            },
            NativeGroup::Paint => {
                &&& natives_table(group).len() == 1
                &&& natives_table(group)[0].0 == names::PAINT_CLASS@
                &&& natives_table(group)[0].1 == BindPolicy::BestEffort
                &&& natives_table(group)[0].2 == paint_table()
            },
            NativeGroup::Matrix => {
                &&& natives_table(group).len() == 1
                &&& natives_table(group)[0].0 == names::MATRIX_CLASS@
                &&& natives_table(group)[0].1 == BindPolicy::Required
                &&& natives_table(group)[0].2 == matrix_table()
            },
            NativeGroup::Path => {
                &&& natives_table(group).len() == 1
                &&& natives_table(group)[0].0 == names::PATH_CLASS@
                &&& natives_table(group)[0].1 == BindPolicy::Required
                &&& natives_table(group)[0].2 == path_table()
            },
            NativeGroup::Canvas => {
                &&& natives_table(group).len() == 1
                &&& natives_table(group)[0].0 == names::CANVAS_CLASS@
                &&& natives_table(group)[0].1 == BindPolicy::Optional
                &&& natives_table(group)[0].2 == canvas_table()
            },
            NativeGroup::RuntimeNativeLoad => {
                &&& natives_table(group).len() == 1
                &&& natives_table(group)[0].0 == names::RUNTIME_CLASS@
                &&& natives_table(group)[0].1 == BindPolicy::Optional
                &&& natives_table(group)[0].2 == runtime_native_load_table()
            },
        },
{
}

} // verus!
