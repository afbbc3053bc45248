//! Loading a native library for Java: what is loaded already, what is handed to the
//! runtime, and what Java is told.

use vstd::prelude::*;

use crate::text;

verus! {

/// The symbol of the function with which the runtime loads a native library.
pub const ART_LOAD_NATIVE_LIBRARY_SYMBOL: &'static str =
    "_ZN3art9JavaVMExt17LoadNativeLibraryEP7_JNIEnvRKNSt7__cxx1112basic_stringIcSt11char_traitsIcESaIcEEEP8_jobjectP7_jclassPS8_\0";

/// How many bytes the runtime has for its message.
pub const LOAD_ERROR_BYTES: usize = 1024;

/// The file's name in a path: what stands behind the last slash.
pub open spec fn file_name(path: Seq<char>) -> Seq<char> {
    match text::find_last(path, '/') {
        Some(at) => path.skip(at + 1),
        None => path,
    }
}

/// The name by which a library is known, from the path that it is loaded by.
pub fn soname_from_load_path(path: &str) -> (name: String)
    ensures
        name@ == file_name(path@),
{
    let chars = text::chars_of(path);
    let len: usize = chars.len();
    match text::last_position(&chars, '/') {
        Some(at) => {
            let name = text::part(&chars, at + 1, len);
            assert(name@ =~= path@.skip(at + 1));
            text::string_of(&name)
        },
        None => path.to_owned(),
    }
}

/// What is done to load a library.
#[derive(Debug, Clone, Copy, PartialEq, Eq, Structural)]
pub enum NativeLoad {
    /// Nothing: it is loaded.
    Preloaded,
    /// Nothing: the runtime cannot load any.
    NoLoader,
    /// Nothing: no file can have that path.
    InvalidPath,
    /// The runtime loads it.
    Delegate,
}

/// What is done to load a library.
pub open spec fn load_plan(path: Seq<char>, preloaded: bool, has_loader: bool) -> NativeLoad {
    if path.len() > 0 && preloaded {
        NativeLoad::Preloaded
    } else if !has_loader {
        NativeLoad::NoLoader
    } else if text::has(path, '\0') {
        NativeLoad::InvalidPath
    } else {
        NativeLoad::Delegate
    }
}

/// What is done to load a library. `preloaded` says whether a library of that name
/// is loaded, `has_loader` whether the runtime can load one.
pub fn native_load_plan(path: &str, preloaded: bool, has_loader: bool) -> (plan: NativeLoad)
    ensures
        plan == load_plan(path@, preloaded, has_loader),
{
    let chars = text::chars_of(path);
    let len: usize = chars.len();
    if len > 0 && preloaded {
        return NativeLoad::Preloaded;
    }
    if !has_loader {
        return NativeLoad::NoLoader;
    }
    assert(chars@.skip(0) =~= chars@);
    if text::position(&chars, '\0', 0) < len {
        NativeLoad::InvalidPath
    } else {
        NativeLoad::Delegate
    }
}

/// What Java is told where the runtime cannot load a library.
pub fn no_loader_message(path: &str) -> (message: String)
    ensures
        message@ == "Eclipse: cannot load \""@ + path@
            + "\": ART JavaVMExt::LoadNativeLibrary not found (is libart RTLD_GLOBAL?)"@,
{
    let mut message = "Eclipse: cannot load \"".to_owned();
    message.append(path);
    message.append("\": ART JavaVMExt::LoadNativeLibrary not found (is libart RTLD_GLOBAL?)");
    message
}

/// What Java is told where no file can have the path of a library.
pub fn invalid_path_message(path: &str) -> (message: String)
    ensures
        message@ == "Eclipse: invalid library path \""@ + path@ + "\""@,
{
    let mut message = "Eclipse: invalid library path \"".to_owned();
    message.append(path);
    message.append("\"");
    message
}

/// What Java is told where the runtime did not load a library: what the runtime
/// said, where it said anything.
pub fn load_failure_message(path: &str, reported: &str) -> (message: String)
    ensures
        message@ == (if reported@.len() > 0 {
            reported@
        } else {
            "Eclipse: failed to load \""@ + path@ + "\""@
        }),
{
    if text::chars_of(reported).len() > 0 {
        return reported.to_owned();
    }
    let mut message = "Eclipse: failed to load \"".to_owned();
    message.append(path);
    message.append("\"");
    message
}

/// How many of the bytes are the runtime's message: those before the first zero.
pub open spec fn message_length(bytes: Seq<u8>) -> nat
    decreases bytes.len(),
{
    if bytes.len() == 0 || bytes[0] == 0 {
        0
    } else {
        1 + message_length(bytes.skip(1))
    }
}

/// How many of the bytes are the runtime's message: those before the first zero.
pub fn reported_length(bytes: &[u8]) -> (len: usize)
    ensures
        len == message_length(bytes@),
        len <= bytes@.len(),
        forall|i: int| 0 <= i < len ==> #[trigger] bytes@[i] != 0,
        len < bytes@.len() ==> bytes@[len as int] == 0,
{
    let mut i: usize = 0;
    assert(bytes@.skip(0) =~= bytes@);
    while i < bytes.len()
        invariant
            i <= bytes@.len(),
            forall|k: int| 0 <= k < i ==> #[trigger] bytes@[k] != 0,
            message_length(bytes@) == i + message_length(bytes@.skip(i as int)),
        decreases bytes@.len() - i,
    {
        assert(bytes@.skip(i as int)[0] == bytes@[i as int]);
        if bytes[i] == 0 {
            return i;
        }
        assert(bytes@.skip(i as int).skip(1) =~= bytes@.skip(i + 1));
        i += 1;
    }
    i
}

/// A library that is loaded is never loaded again, whatever the runtime can do.
pub proof fn law_preloaded_is_not_loaded_again(path: Seq<char>, has_loader: bool)
    requires
        path.len() > 0,
    ensures
        load_plan(path, true, has_loader) == NativeLoad::Preloaded,
{
}

/// The name of a library has no slash.
pub proof fn law_name_has_no_slash(path: Seq<char>)
    ensures
        !file_name(path).contains('/'),
    decreases path.len(),
{
    if path.len() > 0 {
        let front = path.drop_last();
        law_name_has_no_slash(front);
        lemma_find_last(front);
        match text::find_last(front, '/') {
            Some(at) => {
                if path.last() != '/' {
                    assert(file_name(path) =~= file_name(front).push(path.last()));
                }
            },
            None => {
                if path.last() != '/' {
                    assert(file_name(path) =~= file_name(front).push(path.last()));
                }
            },
        }
        if path.last() == '/' {
            assert(file_name(path).len() == 0);
        } else {
            let name = file_name(path);
            assert forall|i: int| 0 <= i < name.len() implies name[i] != '/' by {
                if i < name.len() - 1 {
                    assert(name[i] == file_name(front)[i]);
                    assert(file_name(front).contains(file_name(front)[i]));
                }
            }
        }
    }
}

proof fn lemma_find_last(s: Seq<char>)
    ensures
        match text::find_last(s, '/') {
            Some(at) => 0 <= at < s.len(),
            None => true,
        },
    decreases s.len(),
{
    if s.len() > 0 {
        lemma_find_last(s.drop_last());
    }
}

/// The name of a library is what stands behind the last slash of its path, all of a path
/// without one.
pub proof fn law_name_stands_behind_the_last_slash(directory: Seq<char>, name: Seq<char>)
    requires
        !name.contains('/'),
    ensures
        file_name(directory.push('/') + name) == name,
        file_name(name) == name,
{
    text::law_last_occurrence_has_none_behind(directory, '/', name);
    assert((directory.push('/') + name).skip(directory.len() as int + 1) =~= name);
}

/// A library that is not loaded is handed to the runtime where that can load, and where its
/// path can be handed over at all.
pub proof fn law_library_is_handed_to_the_runtime(path: Seq<char>, preloaded: bool)
    requires
        !preloaded || path.len() == 0,
    ensures
        load_plan(path, preloaded, false) == NativeLoad::NoLoader,
        path.contains('\0') ==> load_plan(path, preloaded, true) == NativeLoad::InvalidPath,
        !path.contains('\0') ==> load_plan(path, preloaded, true) == NativeLoad::Delegate,
{
    text::lemma_find(path, '\0');
    if path.contains('\0') {
        let i = choose|i: int| 0 <= i < path.len() && path[i] == '\0';
        assert(path[i] == '\0');
        assert(text::find(path, '\0') <= i);
    } else {
        text::law_first_occurrence_parts_a_text(path, '\0', Seq::empty());
    }
}

} // verus!
