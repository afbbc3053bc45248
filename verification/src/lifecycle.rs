//! The lives of an app and of its activities: the order in which they are brought
//! up, and the order in which they are brought down.

use vstd::prelude::*;

verus! {

/// A method that a step of the way up calls, as Java knows it.
#[derive(Debug, Clone, Copy)]
pub struct RecipeStep {
    pub class: &'static str,
    pub method: &'static str,
    pub descriptor: &'static str,
}

/// How far an app was brought up.
#[derive(Debug, Clone, Copy, PartialEq, Eq, Structural)]
pub enum LifecycleProgress {
    BridgeProven,
    ApplicationOnCreate,
    ActivityOnCreate,
    ActivityResumed,
}

/// A step in the life of an activity.
#[derive(Debug, Clone, Copy, PartialEq, Eq, Structural)]
pub enum ActivityStep {
    OnCreate,
    OnPostCreate,
    OnStart,
    OnResume,
    OnPause,
    OnStop,
    OnDestroy,
}

/// The native methods of a part of the framework, which are bound together.
#[derive(Debug, Clone, Copy, PartialEq, Eq, Structural)]
pub enum NativeGroup {
    Context,
    Log,
    Process,
    AssetManager,
    AssetStream,
    XmlBlock,
    Environment,
    SystemClock,
    MessageQueue,
    SensorManager,
    Connectivity,
    ActivityManagerMemory,
    Vibrator,
    Sqlite,
    Activity,
    View,
    ViewTreeObserver,
    InputMethodManager,
    Dialog,
    Window,
    TextView,
    ImageView,
    ImageButton,
    SurfaceView,
    ViewSubclassConstructors,
    WebView,
    WebSettings,
    CookieManager,
    WidgetPropertySetters,
    Drawable,
    Bitmap,
    ViewGroup,
    Paint,
    Matrix,
    Path,
    Canvas,
    RuntimeNativeLoad,
}

/// A step that brings an app up.
#[derive(Debug, Clone, Copy, PartialEq, Eq, Structural)]
pub enum LaunchStep {
    Register(NativeGroup),
    /// Finds the classes that everything else needs.
    ResolveBootstrapClasses,
    PrepareMainLooper,
    AllocateWindow,
    CreateApplication,
    CreateContentProviders,
    ApplicationOnCreate,
    CreateMainActivity,
    TrackMainActivity,
    MainActivity(ActivityStep),
}

/// How many groups of native methods there are.
pub const NATIVE_GROUPS: usize = 37;

/// The steps that bring an app up, in order.
pub open spec fn launch_order() -> Seq<LaunchStep> {
    seq![
        LaunchStep::Register(NativeGroup::Context),
        LaunchStep::Register(NativeGroup::Log),
        LaunchStep::Register(NativeGroup::Process),
        LaunchStep::Register(NativeGroup::AssetManager),
        LaunchStep::Register(NativeGroup::AssetStream),
        LaunchStep::Register(NativeGroup::XmlBlock),
        LaunchStep::Register(NativeGroup::Environment),
        LaunchStep::Register(NativeGroup::SystemClock),
        LaunchStep::Register(NativeGroup::MessageQueue),
        LaunchStep::Register(NativeGroup::SensorManager),
        LaunchStep::Register(NativeGroup::Connectivity),
        LaunchStep::Register(NativeGroup::ActivityManagerMemory),
        LaunchStep::Register(NativeGroup::Vibrator),
        LaunchStep::Register(NativeGroup::Sqlite),
        LaunchStep::Register(NativeGroup::Activity),
        LaunchStep::Register(NativeGroup::View),
        LaunchStep::Register(NativeGroup::ViewTreeObserver),
        LaunchStep::Register(NativeGroup::InputMethodManager),
        LaunchStep::Register(NativeGroup::Dialog),
        LaunchStep::Register(NativeGroup::Window),
        LaunchStep::Register(NativeGroup::TextView),
        LaunchStep::Register(NativeGroup::ImageView),
        LaunchStep::Register(NativeGroup::ImageButton),
        LaunchStep::Register(NativeGroup::SurfaceView),
        LaunchStep::Register(NativeGroup::ViewSubclassConstructors),
        LaunchStep::Register(NativeGroup::WebView),
        LaunchStep::Register(NativeGroup::WebSettings),
        LaunchStep::Register(NativeGroup::CookieManager),
        LaunchStep::Register(NativeGroup::WidgetPropertySetters),
        LaunchStep::Register(NativeGroup::Drawable),
        LaunchStep::Register(NativeGroup::Bitmap),
        LaunchStep::Register(NativeGroup::ViewGroup),
        LaunchStep::Register(NativeGroup::Paint),
        LaunchStep::Register(NativeGroup::Matrix),
        LaunchStep::Register(NativeGroup::Path),
        LaunchStep::Register(NativeGroup::Canvas),
        LaunchStep::Register(NativeGroup::RuntimeNativeLoad),
        LaunchStep::ResolveBootstrapClasses,
        LaunchStep::PrepareMainLooper,
        LaunchStep::AllocateWindow,
        LaunchStep::CreateApplication,
        LaunchStep::CreateContentProviders,
        LaunchStep::ApplicationOnCreate,
        LaunchStep::CreateMainActivity,
        LaunchStep::TrackMainActivity,
        LaunchStep::MainActivity(ActivityStep::OnCreate),
        LaunchStep::MainActivity(ActivityStep::OnPostCreate),
        LaunchStep::MainActivity(ActivityStep::OnStart),
        LaunchStep::MainActivity(ActivityStep::OnResume),
    ]
}

/// The steps that bring an app up, in order. The first that fails ends it; where all
/// succeed, the app's activity is resumed.
#[verifier::rlimit(40)]
pub fn launch_steps() -> (steps: Vec<LaunchStep>)
    ensures
        steps@ == launch_order(),
{
    let mut steps: Vec<LaunchStep> = Vec::new();
    steps.push(LaunchStep::Register(NativeGroup::Context));
    steps.push(LaunchStep::Register(NativeGroup::Log));
    steps.push(LaunchStep::Register(NativeGroup::Process));
    steps.push(LaunchStep::Register(NativeGroup::AssetManager));
    steps.push(LaunchStep::Register(NativeGroup::AssetStream));
    steps.push(LaunchStep::Register(NativeGroup::XmlBlock));
    steps.push(LaunchStep::Register(NativeGroup::Environment));
    steps.push(LaunchStep::Register(NativeGroup::SystemClock));
    steps.push(LaunchStep::Register(NativeGroup::MessageQueue));
    steps.push(LaunchStep::Register(NativeGroup::SensorManager));
    steps.push(LaunchStep::Register(NativeGroup::Connectivity));
    steps.push(LaunchStep::Register(NativeGroup::ActivityManagerMemory));
    steps.push(LaunchStep::Register(NativeGroup::Vibrator));
    steps.push(LaunchStep::Register(NativeGroup::Sqlite));
    steps.push(LaunchStep::Register(NativeGroup::Activity));
    steps.push(LaunchStep::Register(NativeGroup::View));
    steps.push(LaunchStep::Register(NativeGroup::ViewTreeObserver));
    steps.push(LaunchStep::Register(NativeGroup::InputMethodManager));
    steps.push(LaunchStep::Register(NativeGroup::Dialog));
    steps.push(LaunchStep::Register(NativeGroup::Window));
    steps.push(LaunchStep::Register(NativeGroup::TextView));
    steps.push(LaunchStep::Register(NativeGroup::ImageView));
    steps.push(LaunchStep::Register(NativeGroup::ImageButton));
    steps.push(LaunchStep::Register(NativeGroup::SurfaceView));
    steps.push(LaunchStep::Register(NativeGroup::ViewSubclassConstructors));
    steps.push(LaunchStep::Register(NativeGroup::WebView));
    steps.push(LaunchStep::Register(NativeGroup::WebSettings));
    steps.push(LaunchStep::Register(NativeGroup::CookieManager));
    steps.push(LaunchStep::Register(NativeGroup::WidgetPropertySetters));
    steps.push(LaunchStep::Register(NativeGroup::Drawable));
    steps.push(LaunchStep::Register(NativeGroup::Bitmap));
    steps.push(LaunchStep::Register(NativeGroup::ViewGroup));
    steps.push(LaunchStep::Register(NativeGroup::Paint));
    steps.push(LaunchStep::Register(NativeGroup::Matrix));
    steps.push(LaunchStep::Register(NativeGroup::Path));
    steps.push(LaunchStep::Register(NativeGroup::Canvas));
    steps.push(LaunchStep::Register(NativeGroup::RuntimeNativeLoad));
    steps.push(LaunchStep::ResolveBootstrapClasses);
    steps.push(LaunchStep::PrepareMainLooper);
    steps.push(LaunchStep::AllocateWindow);
    steps.push(LaunchStep::CreateApplication);
    steps.push(LaunchStep::CreateContentProviders);
    steps.push(LaunchStep::ApplicationOnCreate);
    steps.push(LaunchStep::CreateMainActivity);
    steps.push(LaunchStep::TrackMainActivity);
    steps.push(LaunchStep::MainActivity(ActivityStep::OnCreate));
    steps.push(LaunchStep::MainActivity(ActivityStep::OnPostCreate));
    steps.push(LaunchStep::MainActivity(ActivityStep::OnStart));
    steps.push(LaunchStep::MainActivity(ActivityStep::OnResume));
    steps
}

/// The steps that bring an activity up, in order.
pub open spec fn activity_up_order() -> Seq<ActivityStep> {
    seq![
        ActivityStep::OnCreate,
        ActivityStep::OnPostCreate,
        ActivityStep::OnStart,
        ActivityStep::OnResume,
    ]
}

/// The steps that bring an activity up, in order. The first that fails ends it.
pub fn activity_up_steps() -> (steps: Vec<ActivityStep>)
    ensures
        steps@ == activity_up_order(),
        steps@ == seq![
            ActivityStep::OnCreate,
            ActivityStep::OnPostCreate,
            ActivityStep::OnStart,
            ActivityStep::OnResume,
        ],
{
    let mut steps: Vec<ActivityStep> = Vec::new();
    steps.push(ActivityStep::OnCreate);
    steps.push(ActivityStep::OnPostCreate);
    steps.push(ActivityStep::OnStart);
    steps.push(ActivityStep::OnResume);
    steps
}

/// The steps that bring an activity down, in order.
pub open spec fn activity_down_order() -> Seq<ActivityStep> {
    seq![ActivityStep::OnPause, ActivityStep::OnStop, ActivityStep::OnDestroy]
}

/// The steps that bring an activity down, in order. The first that fails ends it.
pub fn activity_down_steps() -> (steps: Vec<ActivityStep>)
    ensures
        steps@ == activity_down_order(),
        steps@ == seq![ActivityStep::OnPause, ActivityStep::OnStop, ActivityStep::OnDestroy],
{
    let mut steps: Vec<ActivityStep> = Vec::new();
    steps.push(ActivityStep::OnPause);
    steps.push(ActivityStep::OnStop);
    steps.push(ActivityStep::OnDestroy);
    steps
}

/// The method of an activity that a step calls.
pub open spec fn activity_method(step: ActivityStep) -> (Seq<char>, Seq<char>) {
    match step {
        ActivityStep::OnCreate => ("onCreate"@, "(Landroid/os/Bundle;)V"@),
        ActivityStep::OnPostCreate => ("onPostCreate"@, "(Landroid/os/Bundle;)V"@),
        ActivityStep::OnStart => ("onStart"@, "()V"@),
        ActivityStep::OnResume => ("onResume"@, "()V"@),
        ActivityStep::OnPause => ("onPause"@, "()V"@),
        ActivityStep::OnStop => ("onStop"@, "()V"@),
        ActivityStep::OnDestroy => ("onDestroy"@, "()V"@),
    }
}

/// The method of an activity that a step calls.
pub fn activity_recipe(step: ActivityStep) -> (recipe: RecipeStep)
    ensures
        recipe.class@ == "android/app/Activity"@,
        recipe.method@ == activity_method(step).0,
        recipe.descriptor@ == activity_method(step).1,
        match step {
            ActivityStep::OnCreate => recipe.method@ == "onCreate"@ && recipe.descriptor@ == "(Landroid/os/Bundle;)V"@,
            ActivityStep::OnPostCreate => recipe.method@ == "onPostCreate"@ && recipe.descriptor@ == "(Landroid/os/Bundle;)V"@,
            ActivityStep::OnStart => recipe.method@ == "onStart"@ && recipe.descriptor@ == "()V"@,
            ActivityStep::OnResume => recipe.method@ == "onResume"@ && recipe.descriptor@ == "()V"@,
            ActivityStep::OnPause => recipe.method@ == "onPause"@ && recipe.descriptor@ == "()V"@,
            ActivityStep::OnStop => recipe.method@ == "onStop"@ && recipe.descriptor@ == "()V"@,
            ActivityStep::OnDestroy => recipe.method@ == "onDestroy"@ && recipe.descriptor@ == "()V"@,
        },
{
    let (method, descriptor): (&'static str, &'static str) = match step {
        ActivityStep::OnCreate => ("onCreate", "(Landroid/os/Bundle;)V"),
        ActivityStep::OnPostCreate => ("onPostCreate", "(Landroid/os/Bundle;)V"),
        ActivityStep::OnStart => ("onStart", "()V"),
        ActivityStep::OnResume => ("onResume", "()V"),
        ActivityStep::OnPause => ("onPause", "()V"),
        ActivityStep::OnStop => ("onStop", "()V"),
        ActivityStep::OnDestroy => ("onDestroy", "()V"),
    };
    RecipeStep { class: "android/app/Activity", method, descriptor }
}

/// Whether an activity is handed a bundle by a step, which it is not where it has
/// nothing saved.
pub fn takes_bundle(step: ActivityStep) -> (b: bool)
    ensures
        b == (step == ActivityStep::OnCreate || step == ActivityStep::OnPostCreate),
{
    match step {
        ActivityStep::OnCreate | ActivityStep::OnPostCreate => true,
        _ => false,
    }
}

/// The method that a step calls to bring an app up: its class, its name and its
/// descriptor.
pub open spec fn launch_method(step: LaunchStep) -> Option<(Seq<char>, Seq<char>, Seq<char>)> {
    match step {
        LaunchStep::CreateApplication => Some(
            ("android/content/Context"@, "createApplication"@, "(J)Landroid/app/Application;"@),
        ),
        LaunchStep::CreateContentProviders => Some(
            ("android/content/ContentProvider"@, "createContentProviders"@, "()V"@),
        ),
        LaunchStep::ApplicationOnCreate => Some(("android/app/Application"@, "onCreate"@, "()V"@)),
        LaunchStep::CreateMainActivity => Some(
            (
                "android/app/Activity"@,
                "createMainActivity"@,
                "(Ljava/lang/String;JLjava/lang/String;)Landroid/app/Activity;"@,
            ),
        ),
        LaunchStep::MainActivity(a) => Some(
            ("android/app/Activity"@, activity_method(a).0, activity_method(a).1),
        ),
        LaunchStep::PrepareMainLooper => Some(("android/os/Looper"@, "prepareMainLooper"@, "()V"@)),
        _ => None,
    }
}

/// The method that a step calls to bring an app up, none where it calls none of the
/// app's.
pub fn launch_recipe(step: LaunchStep) -> (recipe: Option<RecipeStep>)
    ensures
        match recipe {
            Some(r) => launch_method(step) == Some((r.class@, r.method@, r.descriptor@)),
            None => launch_method(step) is None,
        },
        match step {
            LaunchStep::CreateApplication => recipe is Some && recipe->0.class@
                == "android/content/Context"@ && recipe->0.method@ == "createApplication"@
                && recipe->0.descriptor@ == "(J)Landroid/app/Application;"@,
            LaunchStep::CreateContentProviders => recipe is Some && recipe->0.class@
                == "android/content/ContentProvider"@ && recipe->0.method@
                == "createContentProviders"@ && recipe->0.descriptor@ == "()V"@,
            LaunchStep::ApplicationOnCreate => recipe is Some && recipe->0.class@
                == "android/app/Application"@ && recipe->0.method@ == "onCreate"@
                && recipe->0.descriptor@ == "()V"@,
            LaunchStep::CreateMainActivity => recipe is Some && recipe->0.class@
                == "android/app/Activity"@ && recipe->0.method@ == "createMainActivity"@
                && recipe->0.descriptor@
                == "(Ljava/lang/String;JLjava/lang/String;)Landroid/app/Activity;"@,
            LaunchStep::PrepareMainLooper => recipe is Some && recipe->0.class@
                == "android/os/Looper"@ && recipe->0.method@ == "prepareMainLooper"@
                && recipe->0.descriptor@ == "()V"@,
            LaunchStep::MainActivity(_) => recipe is Some && recipe->0.class@
                == "android/app/Activity"@,
            _ => recipe is None,
        },
{
    match step {
        LaunchStep::CreateApplication => Some(
            RecipeStep {
                class: "android/content/Context",
                method: "createApplication",
                descriptor: "(J)Landroid/app/Application;",
            },
        ),
        LaunchStep::CreateContentProviders => Some(
            RecipeStep {
                class: "android/content/ContentProvider",
                method: "createContentProviders",
                descriptor: "()V",
            },
        ),
        LaunchStep::ApplicationOnCreate => Some(
            RecipeStep { class: "android/app/Application", method: "onCreate", descriptor: "()V" },
        ),
        LaunchStep::CreateMainActivity => Some(
            RecipeStep {
                class: "android/app/Activity",
                method: "createMainActivity",
                descriptor: "(Ljava/lang/String;JLjava/lang/String;)Landroid/app/Activity;",
            },
        ),
        LaunchStep::MainActivity(a) => Some(activity_recipe(a)),
        LaunchStep::PrepareMainLooper => Some(
            RecipeStep {
                class: "android/os/Looper",
                method: "prepareMainLooper",
                descriptor: "()V",
            },
        ),
        _ => None,
    }
}

/// The parts of bringing an app down, in the order in which they are done.
#[derive(Debug, Clone, Copy, PartialEq, Eq, Structural)]
pub enum HostShutdownStep {
    PauseActivities,
    DestroyEngineSurface,
    StopActivities,
    DestroyActivities,
}

/// The parts of bringing an app down, in order.
pub fn host_shutdown_sequence() -> (steps: [HostShutdownStep; 4])
    ensures
        steps@ == seq![
            HostShutdownStep::PauseActivities,
            HostShutdownStep::DestroyEngineSurface,
            HostShutdownStep::StopActivities,
            HostShutdownStep::DestroyActivities,
        ],
{
    let steps = [
        HostShutdownStep::PauseActivities,
        HostShutdownStep::DestroyEngineSurface,
        HostShutdownStep::StopActivities,
        HostShutdownStep::DestroyActivities,
    ];
    assert(steps@ =~= seq![
        HostShutdownStep::PauseActivities,
        HostShutdownStep::DestroyEngineSurface,
        HostShutdownStep::StopActivities,
        HostShutdownStep::DestroyActivities,
    ]);
    steps
}

/// Something done to bring an app down. An activity is named by its place among
/// those that are alive, the latest first.
#[derive(Debug, Clone, Copy, PartialEq, Eq, Structural)]
pub enum ShutdownAction {
    /// Notes that the activity is finishing.
    SetFinishing(usize),
    Pause(usize),
    DestroySurface,
    Stop(usize),
    Destroy(usize),
}

/// What is done to bring an app down that has `n` activities: all of them pause,
/// the surface goes, all of them stop, and all of them are destroyed.
pub open spec fn shutdown_order(n: usize) -> Seq<ShutdownAction> {
    Seq::new(
        (4 * n + 1) as nat,
        |i: int|
            if i < 2 * n {
                if i % 2 == 0 {
                    ShutdownAction::SetFinishing((i / 2) as usize)
                } else {
                    ShutdownAction::Pause((i / 2) as usize)
                }
            } else if i == 2 * n {
                ShutdownAction::DestroySurface
            } else if i <= 3 * n {
                ShutdownAction::Stop((i - 2 * n - 1) as usize)
            } else {
                ShutdownAction::Destroy((i - 3 * n - 1) as usize)
            },
    )
}

/// What is done to bring an app down that has `n` activities, in order. All of it is
/// done, whatever fails.
pub fn shutdown_actions(n: usize) -> (actions: Vec<ShutdownAction>)
    ensures
        actions@ == shutdown_order(n),
{
    let mut actions: Vec<ShutdownAction> = Vec::new();
    let mut i: usize = 0;
    while i < n
        invariant
            i <= n,
            actions@ =~= shutdown_order(n).take(2 * i),
        decreases n - i,
    {
        actions.push(ShutdownAction::SetFinishing(i));
        actions.push(ShutdownAction::Pause(i));
        i += 1;
    }
    actions.push(ShutdownAction::DestroySurface);
    let mut j: usize = 0;
    while j < n
        invariant
            j <= n,
            actions@ =~= shutdown_order(n).take(2 * n + 1 + j),
        decreases n - j,
    {
        actions.push(ShutdownAction::Stop(j));
        j += 1;
    }
    let mut k: usize = 0;
    while k < n
        invariant
            k <= n,
            actions@ =~= shutdown_order(n).take(3 * n + 1 + k),
        decreases n - k,
    {
        actions.push(ShutdownAction::Destroy(k));
        k += 1;
    }
    assert(shutdown_order(n).take(4 * n + 1) =~= shutdown_order(n));
    actions
}

/// Keeps the first error of several.
pub fn remember_shutdown_error<E>(first_error: &mut Option<E>, result: Result<(), E>)
    ensures
        *final(first_error) == (match *old(first_error) {
            Some(e) => Some(e),
            None => match result {
                Ok(()) => None,
                Err(e) => Some(e),
            },
        }),
{
    if first_error.is_none() {
        if let Err(error) = result {
            *first_error = Some(error);
        }
    }
}

/// The native methods are bound before anything else is done to bring an app up.
#[verifier::rlimit(40)]
pub proof fn law_natives_come_first(i: int)
    requires
        0 <= i < launch_order().len(),
    ensures
        launch_order()[i] is Register <==> i < NATIVE_GROUPS,
        launch_order()[i] is Register <==> i < 37,
        launch_order().len() == 49,
{
}

/// Whether a step of bringing an app up comes before another.
pub open spec fn comes_before(a: LaunchStep, b: LaunchStep) -> bool {
    exists|i: int, j: int|
        0 <= i < j < launch_order().len() && #[trigger] launch_order()[i] == a
            && #[trigger] launch_order()[j] == b
}

/// The application is up before its activity is made, its content providers are made
/// before it starts, and the activity goes through
/// the steps of any activity, one directly after the other.
#[verifier::rlimit(40)]
pub proof fn law_application_comes_before_activity()
    ensures
        comes_before(LaunchStep::CreateApplication, LaunchStep::CreateContentProviders),
        comes_before(LaunchStep::CreateContentProviders, LaunchStep::ApplicationOnCreate),
        comes_before(LaunchStep::ApplicationOnCreate, LaunchStep::CreateMainActivity),
        launch_order()[37] == LaunchStep::ResolveBootstrapClasses,
        launch_order()[38] == LaunchStep::PrepareMainLooper,
        launch_order()[39] == LaunchStep::AllocateWindow,
        launch_order()[40] == LaunchStep::CreateApplication,
        launch_order()[44] == LaunchStep::TrackMainActivity,
        forall|k: int|
            0 <= k < activity_up_order().len() ==> launch_order()[launch_order().len()
                - activity_up_order().len() + k] == LaunchStep::MainActivity(
                #[trigger] activity_up_order()[k],
            ),
{
    assert(launch_order()[40] == LaunchStep::CreateApplication);
    assert(launch_order()[41] == LaunchStep::CreateContentProviders);
    assert(launch_order()[42] == LaunchStep::ApplicationOnCreate);
    assert(launch_order()[43] == LaunchStep::CreateMainActivity);
}

/// An activity has its `onPostCreate` after its `onCreate` and before its
/// `onStart`.
pub proof fn law_post_create_stands_between()
    ensures
        activity_up_order()[0] == ActivityStep::OnCreate,
        activity_up_order()[1] == ActivityStep::OnPostCreate,
        activity_up_order()[2] == ActivityStep::OnStart,
{
}

/// As an app is brought down, the surface goes once: after every activity has
/// paused, and before any stops or is destroyed.
pub proof fn law_surface_goes_between_pause_and_stop(n: usize, i: int)
    requires
        0 <= i < shutdown_order(n).len(),
    ensures
        shutdown_order(n)[2 * n] == ShutdownAction::DestroySurface,
        shutdown_order(n)[i] == ShutdownAction::DestroySurface <==> i == 2 * n,
        shutdown_order(n)[i] is Pause ==> i < 2 * n,
        shutdown_order(n)[i] is Stop ==> 2 * n < i <= 3 * n,
        shutdown_order(n)[i] is Destroy ==> i > 3 * n,
{
}

/// As an app is brought down, every activity pauses, stops and is destroyed, in
/// that order.
pub proof fn law_every_activity_goes_down(n: usize, a: usize)
    requires
        a < n,
    ensures
        shutdown_order(n)[2 * a] == ShutdownAction::SetFinishing(a),
        shutdown_order(n)[2 * a + 1] == ShutdownAction::Pause(a),
        shutdown_order(n)[2 * n + 1 + a] == ShutdownAction::Stop(a),
        shutdown_order(n)[3 * n + 1 + a] == ShutdownAction::Destroy(a),
        shutdown_order(n).len() == 4 * n + 1,
{
}

} // verus!
