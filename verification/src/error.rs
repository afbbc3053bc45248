//! Why the host could not drive an app.

use vstd::prelude::*;

verus! {

/// Why the host could not drive an app. What another part reported is kept as that
/// part worded it.
#[derive(Debug)]
pub enum FrameworkError {
    NullVm,
    ActivityTrackerPoisoned,
    GlobalLayoutObserverRegistryPoisoned,
    Jni(String),
    Panicked,
    WindowRegistry(String),
    ViewRegistry(String),
}

impl FrameworkError {
    /// The wording of an error.
    pub open spec fn wording(self) -> Seq<char> {
        match self {
            FrameworkError::NullVm => "framework driver received a null JavaVM pointer"@,
            FrameworkError::ActivityTrackerPoisoned =>
                "the framework Activity tracker was poisoned"@,
            FrameworkError::GlobalLayoutObserverRegistryPoisoned =>
                "the framework global-layout observer registry was poisoned"@,
            FrameworkError::Jni(e) => "JNI error driving the framework lifecycle: "@ + e@,
            FrameworkError::Panicked =>
                "a panic was caught at the framework JNI boundary (not propagated)"@,
            FrameworkError::WindowRegistry(e) => "window-registry handle allocation failed: "@ + e@,
            FrameworkError::ViewRegistry(e) => "view-registry operation failed: "@ + e@,
        }
    }

    /// The wording of an error.
    pub fn message(&self) -> (message: String)
        ensures
            message@ == self.wording(),
            message@ == (match *self {
                FrameworkError::NullVm => "framework driver received a null JavaVM pointer"@,
                FrameworkError::ActivityTrackerPoisoned =>
                    "the framework Activity tracker was poisoned"@,
                FrameworkError::GlobalLayoutObserverRegistryPoisoned =>
                    "the framework global-layout observer registry was poisoned"@,
                FrameworkError::Jni(e) => "JNI error driving the framework lifecycle: "@ + e@,
                FrameworkError::Panicked =>
                    "a panic was caught at the framework JNI boundary (not propagated)"@,
                FrameworkError::WindowRegistry(e) => "window-registry handle allocation failed: "@ + e@,
                FrameworkError::ViewRegistry(e) => "view-registry operation failed: "@ + e@,
            }),
    {
        match self {
            FrameworkError::NullVm => "framework driver received a null JavaVM pointer".to_owned(),
            FrameworkError::ActivityTrackerPoisoned => {
                "the framework Activity tracker was poisoned".to_owned()
            },
            FrameworkError::GlobalLayoutObserverRegistryPoisoned => {
                "the framework global-layout observer registry was poisoned".to_owned()
            },
            FrameworkError::Jni(e) => with_detail("JNI error driving the framework lifecycle: ", e),
            FrameworkError::Panicked => {
                "a panic was caught at the framework JNI boundary (not propagated)".to_owned()
            },
            FrameworkError::WindowRegistry(e) => with_detail(
                "window-registry handle allocation failed: ",
                e,
            ),
            FrameworkError::ViewRegistry(e) => with_detail("view-registry operation failed: ", e),
        }
    }
}

fn with_detail(what: &str, detail: &String) -> (message: String)
    ensures
        message@ == what@ + detail@,
{
    let mut message = what.to_owned();
    message.append(detail.as_str());
    message
}

/// How a call that entered Java ended: its own result, or that it panicked; a call
/// without a virtual machine is never made.
pub fn guarded<T>(vm_is_null: bool, outcome: Option<Result<T, FrameworkError>>) -> (result: Result<
    T,
    FrameworkError,
>)
    ensures
        result == (if vm_is_null {
            Err(FrameworkError::NullVm)
        } else {
            match outcome {
                Some(result) => result,
                None => Err(FrameworkError::Panicked),
            }
        }),
{
    if vm_is_null {
        return Err(FrameworkError::NullVm);
    }
    match outcome {
        Some(result) => result,
        None => Err(FrameworkError::Panicked),
    }
}

} // verus!
