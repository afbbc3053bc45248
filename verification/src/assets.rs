//! Assets and resource names: which archive entries an asset name stands for, how
//! an asset is read through its handle, and how a resource name is taken apart.

use vstd::prelude::*;

use crate::asset_registry;
use crate::asset_registry::{
    AssetHandle, AssetRegistry, AssetRegistryError, AssetStream, Stream,
};
use crate::resources;
use crate::resources::{NamedResource, ResourceTable, Resources};
use crate::text;

verus! {

/// Whether an asset name already stands for an entry of the `assets` directory.
pub open spec fn is_under_assets(name: Seq<char>) -> bool {
    text::starts(name, "assets/"@)
}

/// The archive entries that an asset name may stand for, in the order in which
/// they are tried: the name itself, then the name in the `assets` directory unless
/// it is there already.
pub fn asset_entry_candidates(name: &str) -> (entries: Vec<String>)
    ensures
        is_under_assets(name@) ==> entries@.len() == 1 && entries@[0]@ == name@,
        !is_under_assets(name@) ==> entries@.len() == 2 && entries@[0]@ == name@ && entries@[1]@
            == "assets/"@ + name@,
        entries@.len() >= 1 && entries@[0]@ == name@,
        entries@.len() == 1 <==> exists|rest: Seq<char>| name@ == #[trigger] ("assets/"@ + rest),
{
    let chars = text::chars_of(name);
    let prefix = text::chars_of("assets/");
    let mut entries: Vec<String> = Vec::new();
    proof {
        let under = "assets/"@;
        if text::starts(name@, under) {
            let rest = name@.skip(under.len() as int);
            assert(name@ =~= under + rest) by {
                assert forall|i: int| 0 <= i < under.len() implies name@[i] == under[i] by {
                    assert(name@.take(under.len() as int)[i] == under[i]);
                }
            }
        }
        if exists|rest: Seq<char>| name@ == #[trigger] (under + rest) {
            let rest = choose|rest: Seq<char>| name@ == #[trigger] (under + rest);
            assert(name@.take(under.len() as int) =~= under);
        }
    }
    entries.push(name.to_owned());
    if !text::starts_with(&chars, &prefix) {
        let mut fallback = "assets/".to_owned();
        fallback.append(name);
        entries.push(fallback);
    }
    entries
}

/// Where the bytes of an archive entry lie, and whether they lie there as they
/// are.
#[derive(Debug, Clone, Copy, PartialEq, Eq, Structural)]
pub struct EntrySpan {
    pub data_start: u64,
    pub uncompressed_size: u64,
    pub stored: bool,
}

/// Why an asset cannot be handed out as a part of the archive file.
#[derive(Debug)]
pub enum AssetFdError<E> {
    /// None of the candidates could be found; the error is that of the last.
    Apk(E),
    /// The entry is compressed.
    Compressed,
    /// The archive file could not be opened again.
    Io(E),
}

impl AssetFdError<String> {
    /// The wording of an error.
    pub open spec fn wording(self) -> Seq<char> {
        match self {
            AssetFdError::Apk(e) => "apk: "@ + e@,
            AssetFdError::Compressed => "entry is compressed (fd path serves Stored only)"@,
            AssetFdError::Io(e) => "open APK for fd: "@ + e@,
        }
    }

    /// The wording of an error.
    pub fn message(&self) -> (message: String)
        ensures
            message@ == self.wording(),
            message@ == (match *self {
                AssetFdError::Apk(e) => "apk: "@ + e@,
                AssetFdError::Compressed => "entry is compressed (fd path serves Stored only)"@,
                AssetFdError::Io(e) => "open APK for fd: "@ + e@,
            }),
    {
        match self {
            AssetFdError::Apk(e) => worded("apk: ", e.as_str()),
            AssetFdError::Compressed => {
                "entry is compressed (fd path serves Stored only)".to_owned()
            },
            AssetFdError::Io(e) => worded("open APK for fd: ", e.as_str()),
        }
    }
}

fn worded(what: &str, detail: &str) -> (message: String)
    ensures
        message@ == what@ + detail@,
{
    let mut message = what.to_owned();
    message.append(detail);
    message
}

/// Why a document could not be opened. What another part reported is kept as that
/// part worded it.
#[derive(Debug)]
pub enum AssetError {
    NoApkPath,
    Apk(String),
    Axml(String),
    Registry(String),
}

impl AssetError {
    /// The wording of an error.
    pub open spec fn wording(self) -> Seq<char> {
        match self {
            AssetError::NoApkPath => "no APK path was stashed for asset access"@,
            AssetError::Apk(e) => "APK read error: "@ + e@,
            AssetError::Axml(e) => "binary-XML parse error: "@ + e@,
            AssetError::Registry(e) => "xml-block registry error: "@ + e@,
        }
    }

    /// The wording of an error.
    pub fn message(&self) -> (message: String)
        ensures
            message@ == self.wording(),
            message@ == (match *self {
                AssetError::NoApkPath => "no APK path was stashed for asset access"@,
                AssetError::Apk(e) => "APK read error: "@ + e@,
                AssetError::Axml(e) => "binary-XML parse error: "@ + e@,
                AssetError::Registry(e) => "xml-block registry error: "@ + e@,
            }),
    {
        match self {
            AssetError::NoApkPath => "no APK path was stashed for asset access".to_owned(),
            AssetError::Apk(e) => worded("APK read error: ", e.as_str()),
            AssetError::Axml(e) => worded("binary-XML parse error: ", e.as_str()),
            AssetError::Registry(e) => worded("xml-block registry error: ", e.as_str()),
        }
    }
}

/// Reads an asset with `read_entry`, which reads an entry of the archive: the first
/// of the candidates that can be read counts, and none is read after it.
pub fn read_asset_bytes_from<F: Fn(&str) -> Option<Vec<u8>>>(read_entry: F, name: &str) -> (bytes:
    Option<Vec<u8>>)
    requires
        forall|entry: &str| #[trigger] call_requires(read_entry, (entry,)),
    ensures
        exists|first: Option<Vec<u8>>|
            {
                &&& #[trigger] call_ensures(read_entry, (name,), first)
                &&& if first is Some || is_under_assets(name@) {
                    bytes == first
                } else {
                    exists|entry: &str|
                        entry@ == "assets/"@ + name@ && #[trigger] call_ensures(
                            read_entry,
                            (entry,),
                            bytes,
                        )
                }
            },
{
    let first = read_entry(name);
    if first.is_some() {
        return first;
    }
    let entries = asset_entry_candidates(name);
    if entries.len() == 1 {
        return first;
    }
    let entry: &str = entries[1].as_str();
    read_entry(entry)
}

/// The bytes of a resource table, which are loaded when they are first asked for. A
/// table that could not be loaded is not tried again.
pub fn cached_arsc_bytes<F: FnOnce() -> Option<Vec<u8>>>(
    cache: &mut Option<Option<Vec<u8>>>,
    load: F,
) -> (bytes: Option<&Vec<u8>>)
    requires
        *old(cache) is None ==> load.requires(()),
    ensures
        *old(cache) is Some ==> *final(cache) == *old(cache),
        *old(cache) is None ==> *final(cache) is Some && load.ensures((), final(cache)->0),
        match bytes {
            Some(b) => *final(cache) == Some(Some(*b)),
            None => *final(cache) == Some(None::<Vec<u8>>),
        },
{
    if cache.is_none() {
        *cache = Some(load());
    }
    match cache {
        Some(Some(bytes)) => Some(bytes),
        Some(None) => None,
        None => None,
    }
}

/// The first of the outcomes that is a success, or their number.
pub open spec fn first_ok<E>(outcomes: Seq<Result<EntrySpan, E>>) -> nat
    decreases outcomes.len(),
{
    if outcomes.len() == 0 || outcomes[0] is Ok {
        0
    } else {
        1 + first_ok(outcomes.skip(1))
    }
}

/// The span to hand out, given how looking up the candidates went, one after the
/// other: the first that was found counts, and it must not be compressed.
pub fn asset_span<E>(outcomes: Vec<Result<EntrySpan, E>>) -> (result: Result<
    EntrySpan,
    AssetFdError<E>,
>)
    requires
        outcomes@.len() > 0,
    ensures
        ({
            let at = first_ok(outcomes@) as int;
            &&& at < outcomes@.len() ==> {
                let span = outcomes@[at]->Ok_0;
                &&& span.stored ==> result == Ok::<EntrySpan, AssetFdError<E>>(span)
                &&& !span.stored ==> result == Err::<EntrySpan, AssetFdError<E>>(
                    AssetFdError::Compressed,
                )
            }
            &&& at >= outcomes@.len() ==> result == Err::<EntrySpan, AssetFdError<E>>(
                AssetFdError::Apk(outcomes@.last()->Err_0),
            )
        }),
        forall|i: int|
            0 <= i < outcomes@.len() && (#[trigger] outcomes@[i]) is Ok && (forall|j: int|
                0 <= j < i ==> (#[trigger] outcomes@[j]) is Err) ==> if outcomes@[i]->Ok_0.stored {
                result == Ok::<EntrySpan, AssetFdError<E>>(outcomes@[i]->Ok_0)
            } else {
                result == Err::<EntrySpan, AssetFdError<E>>(AssetFdError::Compressed)
            },
        (forall|i: int| 0 <= i < outcomes@.len() ==> (#[trigger] outcomes@[i]) is Err) ==> result
            == Err::<EntrySpan, AssetFdError<E>>(AssetFdError::Apk(outcomes@.last()->Err_0)),
{
    let ghost all = outcomes@;
    let mut tried = outcomes;
    let mut i: usize = 0;
    assert(all.skip(0) =~= all);
    while i < tried.len()
        invariant
            i <= tried@.len(),
            tried@ == all,
            all == outcomes@,
            all.len() > 0,
            first_ok(all) == i + first_ok(all.skip(i as int)),
            forall|j: int| 0 <= j < i ==> (#[trigger] all[j]) is Err,
        decreases tried@.len() - i,
    {
        assert(all.skip(i as int)[0] == all[i as int]);
        if let Ok(span) = &tried[i] {
            if span.stored {
                return Ok(*span);
            }
            return Err(AssetFdError::Compressed);
        }
        assert(all.skip(i as int).skip(1) =~= all.skip(i + 1));
        i += 1;
    }
    let last = tried.pop();
    assert(all[all.len() - 1] is Err);
    match last {
        Some(Err(e)) => Err(AssetFdError::Apk(e)),
        Some(Ok(span)) => Ok(span),
        None => Err(AssetFdError::Compressed),
    }
}

/// An offset and a length as Java's signed numbers, none where one of them is too
/// large.
pub fn fd_window(offset: u64, length: u64) -> (window: Option<(i64, i64)>)
    ensures
        window == (if offset <= i64::MAX && length <= i64::MAX {
            Some((offset as i64, length as i64))
        } else {
            None
        }),
{
    if offset <= i64::MAX as u64 && length <= i64::MAX as u64 {
        Some((offset as i64, length as i64))
    } else {
        None
    }
}

/// What a read of an asset tells Java: the number of bytes, zero at the end, and a
/// negative number for an error alone.
pub fn atl_read_asset_return(outcome: &Result<Vec<u8>, AssetRegistryError>) -> (ret: i32)
    ensures
        match *outcome {
            Ok(read) => ret == (if read@.len() <= i32::MAX {
                read@.len() as i32
            } else {
                i32::MAX
            }),
            Err(_) => ret == -1,
        },
{
    match outcome {
        Ok(read) => {
            if read.len() <= i32::MAX as usize {
                read.len() as i32
            } else {
                i32::MAX
            }
        },
        Err(_) => -1,
    }
}

/// The part of an array of `array_len` bytes that a read of `len` bytes to `off`
/// may fill: where it begins, and how long it is.
pub open spec fn read_window(array_len: nat, off: int, len: int) -> (int, int) {
    let start = if off < 0 {
        0
    } else if off > array_len {
        array_len as int
    } else {
        off
    };
    let fits = array_len - start;
    (
        start,
        if len <= 0 {
            0
        } else if len < fits {
            len
        } else {
            fits
        },
    )
}

/// What came of a read: where the bytes go, the bytes, and what Java is told.
#[derive(Debug)]
pub struct AssetRead {
    pub start: usize,
    pub bytes: Vec<u8>,
    pub ret: i32,
}

/// Reads from an asset into the part of an array that is asked for and that the
/// array has. A read of nothing is told zero whatever the handle is.
pub fn read_asset(
    registry: &mut AssetRegistry,
    asset: AssetHandle,
    array_len: usize,
    off: i64,
    len: i64,
) -> (read: AssetRead)
    requires
        old(registry)@.wf(),
        array_len <= isize::MAX,
    ensures
        final(registry)@.wf(),
        ({
            let (start, want) = read_window(array_len as nat, off as int, len as int);
            let stream = old(registry)@.value(asset)@;
            &&& read.start == start
            &&& want == 0 ==> read.ret == 0 && read.bytes@.len() == 0 && final(registry)@ == old(
                registry,
            )@
            &&& want > 0 && !old(registry)@.live(asset) ==> read.ret == -1 && read.bytes@.len() == 0
                && final(registry)@ == old(registry)@
            &&& want > 0 && old(registry)@.live(asset) ==> {
                &&& read.bytes@ == stream.read_bytes(want)
                &&& read.ret == (if read.bytes@.len() <= i32::MAX {
                    read.bytes@.len() as i32
                } else {
                    i32::MAX
                })
                &&& final(registry)@ == old(registry)@.updated(
                    asset,
                    final(registry)@.value(asset),
                )
                &&& final(registry)@.value(asset)@ == stream.at(
                    stream.pos + stream.read_len(want),
                )
            }
        }),
{
    let start: usize = if off < 0 {
        0
    } else if off as u64 > array_len as u64 {
        array_len
    } else {
        off as usize
    };
    let fits: usize = array_len - start;
    let want: usize = if len <= 0 {
        0
    } else if (len as u64) < fits as u64 {
        len as usize
    } else {
        fits
    };
    if want == 0 {
        return AssetRead { start, bytes: Vec::new(), ret: 0 };
    }
    let ghost before = registry@;
    let outcome: Result<Vec<u8>, AssetRegistryError> = match registry.get_mut(asset) {
        Ok(stream) => {
            proof {
                crate::slots::law_updated_value_is_read_back(before, asset, *final(stream));
            }
            let mut tmp: Vec<u8> = vec![0u8; want];
            let n: usize = stream.read(tmp.as_mut_slice());
            tmp.truncate(n);
            assert(tmp@ =~= before.value(asset)@.read_bytes(want as int));
            Ok(tmp)
        },
        Err(_) => Err(AssetRegistryError::StaleHandle),
    };
    let ret: i32 = atl_read_asset_return(&outcome);
    let bytes = match outcome {
        Ok(bytes) => bytes,
        Err(_) => Vec::new(),
    };
    AssetRead { start, bytes, ret }
}

/// Reads one byte of an asset: its value, -1 at the end and for a handle without
/// an asset.
pub fn read_asset_char(registry: &mut AssetRegistry, asset: AssetHandle) -> (ret: i32)
    requires
        old(registry)@.wf(),
    ensures
        final(registry)@.wf(),
        !old(registry)@.live(asset) ==> ret == -1 && final(registry)@ == old(registry)@,
        old(registry)@.live(asset) ==> {
            let stream = old(registry)@.value(asset)@;
            let n = stream.read_len(1);
            &&& ret == (if n == 1 {
                stream.data[stream.pos] as int
            } else {
                -1
            })
            &&& final(registry)@ == old(registry)@.updated(asset, final(registry)@.value(asset))
            &&& final(registry)@.value(asset)@ == stream.at(stream.pos + n)
        },
{
    let ghost before = registry@;
    match registry.get_mut(asset) {
        Ok(stream) => {
            proof {
                crate::slots::law_updated_value_is_read_back(before, asset, *final(stream));
            }
            let mut one: Vec<u8> = vec![0u8; 1];
            let n: usize = stream.read(one.as_mut_slice());
            if n == 1 {
                assert(one@[0] == before.value(asset)@.read_bytes(1)[0]);
                one[0] as i32
            } else {
                -1
            }
        },
        Err(_) => -1,
    }
}

/// The `lseek` origin that an `AssetInputStream` means: a negative number is the
/// beginning, zero the present position, a positive number the end.
pub fn atl_seek_whence_to_lseek(whence: i32) -> (origin: i32)
    ensures
        origin == (if whence < 0 {
            0int
        } else if whence == 0 {
            1
        } else {
            2
        }),
{
    if whence < 0 {
        0
    } else if whence == 0 {
        1
    } else {
        2
    }
}

/// Moves the position of an asset, with the origin as an `AssetInputStream` gives
/// it, and returns it; -1 where it would leave the asset, and for a handle without
/// an asset.
pub fn seek_asset(registry: &mut AssetRegistry, asset: AssetHandle, offset: i64, whence: i32) -> (pos:
    i64)
    requires
        old(registry)@.wf(),
    ensures
        final(registry)@.wf(),
        !old(registry)@.live(asset) ==> pos == -1 && final(registry)@ == old(registry)@,
        old(registry)@.live(asset) ==> {
            let stream = old(registry)@.value(asset)@;
            let origin = if whence < 0 {
                0int
            } else if whence == 0 {
                1
            } else {
                2
            };
            let after = final(registry)@.value(asset);
            &&& final(registry)@ == old(registry)@.updated(asset, after)
            &&& stream.seek_ok(offset as int, origin) ==> Some(pos as int) == stream.seek_target(
                offset as int,
                origin,
            ) && after@ == stream.at(pos as int)
            &&& !stream.seek_ok(offset as int, origin) ==> pos == -1 && after@ == stream
        },
{
    let ghost before = registry@;
    match registry.get_mut(asset) {
        Ok(stream) => {
            proof {
                crate::slots::law_updated_value_is_read_back(before, asset, *final(stream));
            }
            stream.seek(offset, atl_seek_whence_to_lseek(whence))
        },
        Err(_) => -1,
    }
}

/// A size as Java's signed number, cut off at the largest one.
fn size_as_long(n: usize) -> (value: i64)
    ensures
        n <= i64::MAX ==> value == n,
        n > i64::MAX ==> value == i64::MAX,
{
    if n as u64 <= i64::MAX as u64 {
        n as i64
    } else {
        i64::MAX
    }
}

/// The length of an asset, -1 for a handle without one.
pub fn get_asset_length(registry: &AssetRegistry, asset: AssetHandle) -> (length: i64)
    requires
        registry@.wf(),
    ensures
        !registry@.live(asset) ==> length == -1,
        registry@.live(asset) ==> {
            let n = registry@.value(asset)@.data.len();
            length == (if n <= i64::MAX {
                n as i64
            } else {
                i64::MAX
            })
        },
{
    match registry.get(asset) {
        Ok(stream) => size_as_long(stream.len()),
        Err(_) => -1,
    }
}

/// The number of bytes of an asset that are still to be read, -1 for a handle
/// without an asset.
pub fn get_asset_remaining_length(registry: &AssetRegistry, asset: AssetHandle) -> (length: i64)
    requires
        registry@.wf(),
    ensures
        !registry@.live(asset) ==> length == -1,
        registry@.live(asset) ==> {
            let n = registry@.value(asset)@.remaining();
            length == (if n <= i64::MAX {
                n as i64
            } else {
                i64::MAX
            })
        },
{
    match registry.get(asset) {
        Ok(stream) => size_as_long(stream.remaining()),
        Err(_) => -1,
    }
}

/// A trimmed text, none where nothing is left of it.
pub open spec fn filled(s: Seq<char>) -> Option<Seq<char>> {
    if text::trimmed(s).len() == 0 {
        None
    } else {
        Some(text::trimmed(s))
    }
}

/// What a name says, or else what the default says.
pub open spec fn picked(from_name: Option<Seq<char>>, default: Seq<char>) -> Option<Seq<char>> {
    if from_name is Some && filled(from_name->0) is Some {
        filled(from_name->0)
    } else {
        filled(default)
    }
}

/// The package that a resource name begins with: what stands before a colon.
pub open spec fn package_part(name: Seq<char>) -> Option<Seq<char>> {
    if text::has(name, ':') {
        Some(text::before(name, ':'))
    } else {
        None
    }
}

/// What stands after the package of a resource name.
pub open spec fn local_part(name: Seq<char>) -> Seq<char> {
    if text::has(name, ':') {
        text::after(name, ':')
    } else {
        name
    }
}

/// The type in a resource name: what stands before a slash.
pub open spec fn type_part(name: Seq<char>) -> Option<Seq<char>> {
    if text::has(local_part(name), '/') {
        Some(text::before(local_part(name), '/'))
    } else {
        None
    }
}

/// The entry in a resource name: what stands after a slash, without white space
/// around it.
pub open spec fn entry_part(name: Seq<char>) -> Seq<char> {
    text::trimmed(
        if text::has(local_part(name), '/') {
            text::after(local_part(name), '/')
        } else {
            local_part(name)
        },
    )
}

/// Whether a resource has the names that are asked for; without a package any
/// package will do.
pub open spec fn resource_named(
    r: NamedResource,
    package: Option<Seq<char>>,
    kind: Seq<char>,
    entry: Seq<char>,
) -> bool {
    (package is Some ==> r.package@ == package->0) && r.kind@ == kind && r.entry@ == entry
}

/// The id of the first resource with the names that are asked for.
pub open spec fn found_id(
    names: Seq<NamedResource>,
    package: Option<Seq<char>>,
    kind: Seq<char>,
    entry: Seq<char>,
) -> Option<u32>
    decreases names.len(),
{
    if names.len() == 0 {
        None
    } else if resource_named(names[0], package, kind, entry) {
        Some(names[0].id)
    } else {
        found_id(names.skip(1), package, kind, entry)
    }
}

/// The id of a named resource, zero where the name says too little or no table
/// has it. The names of the package `android` are looked up in the framework's
/// table, all others in the application's.
pub open spec fn identifier(
    res: Resources,
    name: Seq<char>,
    def_type: Seq<char>,
    def_package: Seq<char>,
) -> u32 {
    let package = picked(package_part(name), def_package);
    let kind = picked(type_part(name), def_type);
    let table = if package == Some("android"@) {
        res.framework
    } else {
        res.app
    };
    if entry_part(name).len() == 0 || kind is None || table is None {
        0
    } else {
        match found_id(table->0.names@, package, kind->0, entry_part(name)) {
            Some(id) => id,
            None => 0,
        }
    }
}

fn fill(s: &[char]) -> (result: Option<Vec<char>>)
    ensures
        match result {
            Some(v) => filled(s@) == Some(v@),
            None => filled(s@) is None,
        },
{
    let trimmed = text::trim(s);
    if trimmed.len() == 0 {
        None
    } else {
        Some(trimmed)
    }
}

fn pick(from_name: &Option<Vec<char>>, default: &str) -> (result: Option<Vec<char>>)
    ensures
        match result {
            Some(v) => picked(optional_chars(*from_name), default@) == Some(v@),
            None => picked(optional_chars(*from_name), default@) is None,
        },
{
    if let Some(from_name) = from_name {
        let own = fill(from_name);
        if own.is_some() {
            return own;
        }
    }
    let default = text::chars_of(default);
    fill(&default)
}

/// What optional characters hold.
pub open spec fn optional_chars(s: Option<Vec<char>>) -> Option<Seq<char>> {
    match s {
        Some(s) => Some(s@),
        None => None,
    }
}

fn string_is(s: &str, chars: &[char]) -> (b: bool)
    ensures
        b == (s@ == chars@),
{
    let s = text::chars_of(s);
    text::same(&s, chars)
}

/// The id of the first resource with the names that are asked for.
fn find_resource_id(
    table: &ResourceTable,
    package: &Option<Vec<char>>,
    kind: &[char],
    entry: &[char],
) -> (id: Option<u32>)
    ensures
        id == found_id(table.names@, optional_chars(*package), kind@, entry@),
{
    let ghost all = table.names@;
    let mut i: usize = 0;
    assert(all.skip(0) =~= all);
    while i < table.names.len()
        invariant
            i <= table.names@.len(),
            all == table.names@,
            found_id(all.skip(i as int), optional_chars(*package), kind@, entry@) == found_id(
                all,
                optional_chars(*package),
                kind@,
                entry@,
            ),
        decreases table.names@.len() - i,
    {
        let r = &table.names[i];
        assert(all.skip(i as int)[0] == all[i as int]);
        let package_fits = match package {
            Some(package) => string_is(r.package.as_str(), package),
            None => true,
        };
        if package_fits && string_is(r.kind.as_str(), kind) && string_is(r.entry.as_str(), entry) {
            return Some(r.id);
        }
        assert(all.skip(i as int).skip(1) =~= all.skip(i + 1));
        i += 1;
    }
    None
}

/// The id of a named resource. The name is `package:type/entry`, of which the
/// package and the type may be missing; what is missing the defaults say.
pub fn resolve_resource_identifier(
    res: &Resources,
    name: &str,
    def_type: &str,
    def_package: &str,
) -> (id: u32)
    ensures
        id == identifier(*res, name@, def_type@, def_package@),
{
    let name = text::chars_of(name);
    let len: usize = name.len();
    let colon: usize = text::position(&name, ':', 0);
    assert(name@.skip(0) =~= name@);
    let (package_in_name, rest) = if colon < len {
        (Some(text::part(&name, 0, colon)), text::part(&name, colon + 1, len))
    } else {
        (None, text::part(&name, 0, len))
    };
    proof {
        assert(name@.subrange(0, colon as int) =~= name@.take(colon as int));
        assert(rest@ =~= local_part(name@));
    }
    let rest_len: usize = rest.len();
    let slash: usize = text::position(&rest, '/', 0);
    assert(rest@.skip(0) =~= rest@);
    let (type_in_name, entry) = if slash < rest_len {
        (Some(text::part(&rest, 0, slash)), text::part(&rest, slash + 1, rest_len))
    } else {
        (None, text::part(&rest, 0, rest_len))
    };
    proof {
        assert(rest@.subrange(0, slash as int) =~= rest@.take(slash as int));
        if slash < rest_len {
            assert(entry@ =~= text::after(rest@, '/'));
        } else {
            assert(entry@ =~= rest@);
        }
    }
    let entry = text::trim(&entry);
    if entry.len() == 0 {
        return 0;
    }
    let package = pick(&package_in_name, def_package);
    let kind = match pick(&type_in_name, def_type) {
        Some(kind) => kind,
        None => {
            return 0;
        },
    };
    let is_android = match &package {
        Some(package) => string_is("android", package),
        None => false,
    };
    let table = if is_android {
        res.framework.as_ref()
    } else {
        res.app.as_ref()
    };
    match table {
        Some(table) => match find_resource_id(table, &package, &kind, &entry) {
            Some(id) => id,
            None => 0,
        },
        None => 0,
    }
}

/// Opens a stream over the bytes of an asset and returns its handle, zero where the
/// asset could not be read or no index is left.
pub fn open_asset(registry: &mut AssetRegistry, bytes: Option<Vec<u8>>) -> (handle: AssetHandle)
    requires
        old(registry)@.wf(),
        bytes is Some ==> bytes->0@.len() <= isize::MAX,
    ensures
        final(registry)@.wf(),
        match bytes {
            Some(data) => if old(registry)@.has_room() {
                &&& handle == old(registry)@.next_handle()
                &&& exists|stream: AssetStream| #[trigger]
                    old(registry)@.stored(stream) == final(registry)@ && stream@ == Stream::open(
                        data@,
                    )
            } else {
                handle == 0 && final(registry)@ == old(registry)@
            },
            None => handle == 0 && final(registry)@ == old(registry)@,
        },
{
    match bytes {
        Some(data) => match asset_registry::store(registry, data) {
            Ok(handle) => handle,
            Err(_) => 0,
        },
        None => 0,
    }
}

/// The part of an array that a read may fill begins where it is asked to, but not outside
/// the array, and ends where it is asked to, but not behind the array.
pub proof fn law_read_stays_within_the_array(array_len: nat, off: int, len: int)
    ensures
        ({
            let (start, want) = read_window(array_len, off, len);
            &&& 0 <= start <= array_len
            &&& 0 <= want
            &&& start + want <= array_len
            &&& 0 <= off <= array_len ==> start == off
            &&& off < 0 ==> start == 0
            &&& off > array_len ==> start == array_len
            &&& len <= 0 ==> want == 0
            &&& len > 0 ==> want == len || (want < len && start + want == array_len)
        }),
{
}

proof fn lemma_found_id(
    names: Seq<NamedResource>,
    package: Option<Seq<char>>,
    kind: Seq<char>,
    entry: Seq<char>,
    at: int,
)
    ensures
        0 <= at < names.len() && (package matches Some(p) ==> names[at].package@ == p)
            && names[at].kind@ == kind && names[at].entry@ == entry && (forall|j: int|
            0 <= j < at ==> !((package matches Some(p) ==> (#[trigger] names[j]).package@ == p)
                && names[j].kind@ == kind && names[j].entry@ == entry)) ==> found_id(
            names,
            package,
            kind,
            entry,
        ) == Some(names[at].id),
        (forall|j: int|
            0 <= j < names.len() ==> !((package matches Some(p) ==> (
            #[trigger] names[j]).package@ == p) && names[j].kind@ == kind && names[j].entry@
                == entry)) ==> found_id(names, package, kind, entry) is None,
    decreases names.len(),
{
    if names.len() > 0 {
        let rest = names.skip(1);
        lemma_found_id(rest, package, kind, entry, at - 1);
        assert(names[0] == names[0]);
        assert forall|j: int| 0 <= j < rest.len() implies #[trigger] rest[j] == names[j + 1] by {}
        if 0 < at < names.len() {
            assert(rest[at - 1] == names[at]);
        }
        if at < names.len() && forall|j: int|
            0 <= j < at ==> !((package matches Some(p) ==> (#[trigger] names[j]).package@ == p)
                && names[j].kind@ == kind && names[j].entry@ == entry) {
            assert forall|j: int| 0 <= j < at - 1 implies !((package matches Some(p) ==> (
            #[trigger] rest[j]).package@ == p) && rest[j].kind@ == kind && rest[j].entry@
                == entry) by {
                assert(rest[j] == names[j + 1]);
            }
        }
        if forall|j: int|
            0 <= j < names.len() ==> !((package matches Some(p) ==> (
            #[trigger] names[j]).package@ == p) && names[j].kind@ == kind && names[j].entry@
                == entry) {
            assert forall|j: int| 0 <= j < rest.len() implies !((package matches Some(p) ==> (
            #[trigger] rest[j]).package@ == p) && rest[j].kind@ == kind && rest[j].entry@
                == entry) by {
                assert(rest[j] == names[j + 1]);
            }
        }
    }
}

/// A resource is found by its names. A name may hold a package before a colon and a type
/// before a slash; what it does not hold, or holds blank, is taken from the defaults, and
/// white space around either does not count. The package `android` is looked up in the
/// framework's table, any other in the application's, and without a package any package
/// will do. The first resource with these names counts. Zero stands for none, for a name
/// without an entry and for one without a type.
pub proof fn law_resource_is_found_by_its_names(
    res: Resources,
    named_package: Option<Seq<char>>,
    named_kind: Option<Seq<char>>,
    entry: Seq<char>,
    def_type: Seq<char>,
    def_package: Seq<char>,
    package: Seq<char>,
    kind: Seq<char>,
    table: ResourceTable,
    at: int,
)
    requires
        named_package matches Some(p) ==> !p.contains(':'),
        named_package is None ==> !entry.contains(':') && (named_kind matches Some(k)
            ==> !k.contains(':')),
        named_kind matches Some(k) ==> !k.contains('/'),
        named_kind is None ==> !entry.contains('/'),
        package == (if named_package is Some && text::trimmed(named_package->0).len() > 0 {
            text::trimmed(named_package->0)
        } else {
            text::trimmed(def_package)
        }),
        kind == (if named_kind is Some && text::trimmed(named_kind->0).len() > 0 {
            text::trimmed(named_kind->0)
        } else {
            text::trimmed(def_type)
        }),
        package == "android"@ ==> res.framework == Some(table) || res.framework is None,
        package != "android"@ ==> res.app == Some(table) || res.app is None,
    ensures
        ({
            let local = match named_kind {
                Some(k) => k.push('/') + entry,
                None => entry,
            };
            let name = match named_package {
                Some(p) => p.push(':') + local,
                None => local,
            };
            let id = identifier(res, name, def_type, def_package);
            let here = if package == "android"@ {
                res.framework is Some
            } else {
                res.app is Some
            };
            &&& kind.len() == 0 || text::trimmed(entry).len() == 0 || !here ==> id == 0
            &&& kind.len() > 0 && text::trimmed(entry).len() > 0 && here ==> {
                &&& 0 <= at < table.names@.len() && (package.len() > 0
                    ==> table.names@[at].package@ == package) && table.names@[at].kind@ == kind
                    && table.names@[at].entry@ == text::trimmed(entry) && (forall|j: int|
                    0 <= j < at ==> !((package.len() > 0 ==> (#[trigger] table.names@[j]).package@
                        == package) && table.names@[j].kind@ == kind && table.names@[j].entry@
                        == text::trimmed(entry))) ==> id == table.names@[at].id
                &&& (forall|j: int|
                    0 <= j < table.names@.len() ==> !((package.len() > 0 ==> (
                    #[trigger] table.names@[j]).package@ == package) && table.names@[j].kind@
                        == kind && table.names@[j].entry@ == text::trimmed(entry))) ==> id == 0
            }
        }),
{
    let local = match named_kind {
        Some(k) => k.push('/') + entry,
        None => entry,
    };
    let name = match named_package {
        Some(p) => p.push(':') + local,
        None => local,
    };
    reveal_strlit("android");
    match named_package {
        Some(p) => {
            text::law_first_occurrence_parts_a_text(p, ':', local);
        },
        None => {
            assert(!local.contains(':')) by {
                assert forall|i: int| 0 <= i < local.len() implies #[trigger] local[i] != ':' by {
                    if let Some(k) = named_kind {
                        if i < k.len() {
                            assert(k[i] != ':');
                        } else if i > k.len() {
                            assert(entry[i - k.len() - 1] != ':');
                        }
                    } else {
                        assert(entry[i] != ':');
                    }
                }
            }
            text::law_first_occurrence_parts_a_text(local, ':', Seq::empty());
        },
    }
    assert(local_part(name) == local);
    match named_kind {
        Some(k) => {
            text::law_first_occurrence_parts_a_text(k, '/', entry);
        },
        None => {
            text::law_first_occurrence_parts_a_text(entry, '/', Seq::empty());
        },
    }
    assert(entry_part(name) == text::trimmed(entry));
    let wanted_package = picked(package_part(name), def_package);
    assert(wanted_package == (if package.len() > 0 {
        Some(package)
    } else {
        None
    }));
    assert(picked(type_part(name), def_type) == (if kind.len() > 0 {
        Some(kind)
    } else {
        None
    }));
    assert((wanted_package == Some("android"@)) == (package == "android"@));
    lemma_found_id(table.names@, wanted_package, kind, text::trimmed(entry), at);
    if package.len() > 0 {
        lemma_found_id(table.names@, Some(package), kind, text::trimmed(entry), at);
    } else {
        lemma_found_id(table.names@, None, kind, text::trimmed(entry), at);
    }
}

} // verus!
