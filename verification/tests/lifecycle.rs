use framework::activities::{
    check_finish, is_brought_down, is_task_root, latest_live_activity, live_activities_for_shutdown,
    mark_activity_finished_once, next_live_activity, track_activity, FinishMark,
    FinishRefusal, TrackedActivity,
};
use framework::error::{guarded, FrameworkError};
use framework::layout::{
    add_global_layout_observer, mark_global_layout_pending, take_pending_observers,
    update_global_layout_observer, GlobalLayoutObserver, ObserverUpdate,
    MAX_GLOBAL_LAYOUT_OBSERVERS,
};
use framework::lifecycle::{
    activity_down_steps, activity_recipe, activity_up_steps, host_shutdown_sequence,
    launch_recipe, launch_steps, remember_shutdown_error, shutdown_actions, takes_bundle,
    ActivityStep, HostShutdownStep, LaunchStep, NativeGroup, RecipeStep, ShutdownAction,
    NATIVE_GROUPS,
};
use framework::looper::{
    enter_turn, leave_turn, looks_for_message, message_steps, turn_parts, turn_result,
    MessageStep, TurnPart, MAIN_LOOPER_MESSAGE_BUDGET,
};
use framework::names::{ACTIVITY_CLASS, LOG_CLASS, PROCESS_CLASS};
use framework::native_load::{
    invalid_path_message, load_failure_message, native_load_plan, no_loader_message,
    reported_length, soname_from_load_path, NativeLoad,
};
use framework::natives::natives_of;

fn recipe(step: LaunchStep) -> RecipeStep {
    launch_recipe(step).expect("the step calls a method")
}

#[test]
fn host_shutdown_destroys_engine_surface_before_window_teardown() {
    assert_eq!(
        host_shutdown_sequence(),
        [
            HostShutdownStep::PauseActivities,
            HostShutdownStep::DestroyEngineSurface,
            HostShutdownStep::StopActivities,
            HostShutdownStep::DestroyActivities,
        ]
    );
}

#[test]
fn recipe_descriptors_match_confirmed_spec() {
    let step1 = recipe(LaunchStep::CreateApplication);
    assert_eq!(step1.class, "android/content/Context");
    assert_eq!(step1.method, "createApplication");
    assert_eq!(step1.descriptor, "(J)Landroid/app/Application;");
    assert_eq!(recipe(LaunchStep::CreateContentProviders).descriptor, "()V");
    let step3 = recipe(LaunchStep::ApplicationOnCreate);
    assert_eq!(step3.class, "android/app/Application");
    assert_eq!(step3.descriptor, "()V");
    assert_eq!(
        recipe(LaunchStep::CreateMainActivity).descriptor,
        "(Ljava/lang/String;JLjava/lang/String;)Landroid/app/Activity;"
    );
    assert_eq!(
        recipe(LaunchStep::MainActivity(ActivityStep::OnCreate)).descriptor,
        "(Landroid/os/Bundle;)V"
    );

    let post = recipe(LaunchStep::MainActivity(ActivityStep::OnPostCreate));
    assert_eq!(post.class, "android/app/Activity");
    assert_eq!(post.method, "onPostCreate");
    assert_eq!(post.descriptor, "(Landroid/os/Bundle;)V");

    let step6 = recipe(LaunchStep::MainActivity(ActivityStep::OnStart));
    assert_eq!(step6.class, "android/app/Activity");
    assert_eq!(step6.method, "onStart");
    assert_eq!(step6.descriptor, "()V");
    let step7 = recipe(LaunchStep::MainActivity(ActivityStep::OnResume));
    assert_eq!(step7.class, "android/app/Activity");
    assert_eq!(step7.method, "onResume");
    assert_eq!(step7.descriptor, "()V");
}

#[test]
fn call_site_literals_match_recipe_constants() {
    let step1 = recipe(LaunchStep::CreateApplication);
    assert_eq!("createApplication", step1.method);
    assert_eq!("(J)Landroid/app/Application;", step1.descriptor);
    let step2 = recipe(LaunchStep::CreateContentProviders);
    assert_eq!("createContentProviders", step2.method);
    assert_eq!("()V", step2.descriptor);
    let step3 = recipe(LaunchStep::ApplicationOnCreate);
    assert_eq!("onCreate", step3.method);
    assert_eq!("()V", step3.descriptor);
    let step4 = recipe(LaunchStep::CreateMainActivity);
    assert_eq!("createMainActivity", step4.method);
    assert_eq!(
        "(Ljava/lang/String;JLjava/lang/String;)Landroid/app/Activity;",
        step4.descriptor
    );
    let step5 = activity_recipe(ActivityStep::OnCreate);
    assert_eq!("onCreate", step5.method);
    assert_eq!("(Landroid/os/Bundle;)V", step5.descriptor);
    let post = activity_recipe(ActivityStep::OnPostCreate);
    assert_eq!("onPostCreate", post.method);
    assert_eq!("(Landroid/os/Bundle;)V", post.descriptor);
    let step6 = activity_recipe(ActivityStep::OnStart);
    assert_eq!("onStart", step6.method);
    assert_eq!("()V", step6.descriptor);
    let step7 = activity_recipe(ActivityStep::OnResume);
    assert_eq!("onResume", step7.method);
    assert_eq!("()V", step7.descriptor);

    assert_eq!(ACTIVITY_CLASS, "android/app/Activity");
    assert_eq!(step4.class, "android/app/Activity");
    assert_eq!(step5.class, "android/app/Activity");
    assert_eq!(post.class, "android/app/Activity");
    assert_eq!(step6.class, "android/app/Activity");
    assert_eq!(step7.class, "android/app/Activity");
}

#[test]
fn lifecycle_drivers_call_on_post_create_between_on_create_and_on_start() {
    let up = [
        ActivityStep::OnCreate,
        ActivityStep::OnPostCreate,
        ActivityStep::OnStart,
        ActivityStep::OnResume,
    ];
    assert_eq!(activity_up_steps(), up, "a started activity");
    let launch = launch_steps();
    let main: Vec<ActivityStep> = launch
        .iter()
        .filter_map(|step| match step {
            LaunchStep::MainActivity(a) => Some(*a),
            _ => None,
        })
        .collect();
    assert_eq!(main, up, "the launched activity");
}

#[test]
fn global_layout_listener_registration_queues_dispatch_from_main_pump() {
    let mut observers: Vec<GlobalLayoutObserver<&str>> = Vec::new();
    assert_eq!(
        update_global_layout_observer(&mut observers, None, true),
        ObserverUpdate::Add
    );
    add_global_layout_observer(&mut observers, "first");
    assert_eq!(
        turn_parts(),
        [TurnPart::HandedInWork, TurnPart::Messages, TurnPart::Layouts]
    );
    assert_eq!(take_pending_observers(&mut observers), [0]);
    assert!(take_pending_observers(&mut observers).is_empty());
    mark_global_layout_pending(&mut observers);
    assert_eq!(take_pending_observers(&mut observers), [0]);
}

#[test]
fn observers_are_taken_together_before_any_is_told() {
    let mut observers: Vec<GlobalLayoutObserver<char>> = Vec::new();
    for object in ['a', 'b', 'c', 'd'] {
        add_global_layout_observer(&mut observers, object);
    }
    observers[1].pending = false;
    assert_eq!(take_pending_observers(&mut observers), [0, 2, 3]);
    assert!(observers.iter().all(|o| !o.pending));
    let objects: Vec<char> = observers.iter().map(|o| o.object).collect();
    assert_eq!(objects, ['a', 'b', 'c', 'd']);
    // A layout asked for while the first is told is heard by all in the next turn.
    mark_global_layout_pending(&mut observers);
    assert_eq!(take_pending_observers(&mut observers), [0, 1, 2, 3]);
}

#[test]
fn observers_are_limited_and_forgotten() {
    let mut observers: Vec<GlobalLayoutObserver<usize>> = Vec::new();
    for i in 0..MAX_GLOBAL_LAYOUT_OBSERVERS {
        add_global_layout_observer(&mut observers, i);
    }
    assert_eq!(
        update_global_layout_observer(&mut observers, None, true),
        ObserverUpdate::Full
    );
    assert_eq!(
        update_global_layout_observer(&mut observers, None, false),
        ObserverUpdate::Done
    );
    assert_eq!(take_pending_observers(&mut observers).len(), MAX_GLOBAL_LAYOUT_OBSERVERS);
    assert!(!observers[3].pending);
    assert_eq!(
        update_global_layout_observer(&mut observers, Some(3), true),
        ObserverUpdate::Done
    );
    assert!(observers[3].pending);
    assert_eq!(
        update_global_layout_observer(&mut observers, Some(3), false),
        ObserverUpdate::Done
    );
    assert_eq!(observers.len(), 15);
    assert_eq!(observers[3].object, 4);
}

#[test]
fn soname_from_load_path_returns_the_basename() {
    assert_eq!(
        soname_from_load_path("/home/u/.cache/eclipse/native-libs/libzstd-jni-1.5.7-6.so"),
        "libzstd-jni-1.5.7-6.so"
    );
    assert_eq!(soname_from_load_path("libroblox.so"), "libroblox.so");
    assert_eq!(
        soname_from_load_path("/usr/lib/libwolfssljni.so"),
        "libwolfssljni.so"
    );
    assert_eq!(soname_from_load_path(""), "");
    assert_eq!(soname_from_load_path("/a/b/"), "");
}

#[test]
fn engine_preload_natives_entry_point_exists_and_covers_log_and_process() {
    assert_eq!(natives_of(NativeGroup::Log)[0].class, LOG_CLASS);
    assert_eq!(natives_of(NativeGroup::Process)[0].class, PROCESS_CLASS);
    assert_eq!(LOG_CLASS, "android/util/Log");
    assert_eq!(PROCESS_CLASS, "android/os/Process");
}

#[test]
fn natives_are_bound_before_the_app_runs() {
    let steps = launch_steps();
    for (i, step) in steps.iter().enumerate() {
        assert_eq!(
            matches!(step, LaunchStep::Register(_)),
            i < NATIVE_GROUPS,
            "step {i}"
        );
    }
    assert_eq!(steps[0], LaunchStep::Register(NativeGroup::Context));
    assert_eq!(steps[37], LaunchStep::ResolveBootstrapClasses);
    assert!(launch_recipe(steps[37]).is_none());
    assert_eq!(recipe(LaunchStep::PrepareMainLooper).class, "android/os/Looper");
}

#[test]
fn an_app_goes_down_in_order() {
    assert_eq!(
        activity_down_steps(),
        [ActivityStep::OnPause, ActivityStep::OnStop, ActivityStep::OnDestroy]
    );
    assert!(takes_bundle(ActivityStep::OnPostCreate));
    assert!(!takes_bundle(ActivityStep::OnPause));
    assert_eq!(activity_recipe(ActivityStep::OnDestroy).method, "onDestroy");
    assert_eq!(
        shutdown_actions(2),
        [
            ShutdownAction::SetFinishing(0),
            ShutdownAction::Pause(0),
            ShutdownAction::SetFinishing(1),
            ShutdownAction::Pause(1),
            ShutdownAction::DestroySurface,
            ShutdownAction::Stop(0),
            ShutdownAction::Stop(1),
            ShutdownAction::Destroy(0),
            ShutdownAction::Destroy(1),
        ]
    );
    assert_eq!(shutdown_actions(0), [ShutdownAction::DestroySurface]);
    let mut first: Option<&str> = None;
    remember_shutdown_error(&mut first, Ok(()));
    assert_eq!(first, None);
    remember_shutdown_error(&mut first, Err("a"));
    remember_shutdown_error(&mut first, Err("b"));
    assert_eq!(first, Some("a"));
}

#[test]
fn an_activity_is_brought_down_once() {
    let mut tracker: Vec<TrackedActivity<&str>> = Vec::new();
    assert_eq!(latest_live_activity(&tracker), None);
    track_activity(&mut tracker, "splash", false);
    track_activity(&mut tracker, "main", false);
    track_activity(&mut tracker, "done", true);
    assert_eq!(latest_live_activity(&tracker), Some(1));
    assert_eq!(next_live_activity(&tracker, 0), Some(0));
    assert_eq!(live_activities_for_shutdown(&tracker), [1, 0]);
    assert_eq!(
        mark_activity_finished_once(&mut tracker, Some(1)),
        FinishMark::First
    );
    let again = mark_activity_finished_once(&mut tracker, Some(1));
    assert_eq!(again, FinishMark::Again);
    assert!(!is_brought_down(again));
    assert_eq!(
        mark_activity_finished_once(&mut tracker, None),
        FinishMark::Untracked
    );
    assert!(is_brought_down(FinishMark::Untracked));
    assert_eq!(latest_live_activity(&tracker), Some(0));
    assert_eq!(next_live_activity(&tracker, 1), None);
    assert_eq!(live_activities_for_shutdown(&tracker), [0]);
    assert_eq!(check_finish(true, false), Ok(()));
    assert_eq!(check_finish(false, true), Err(FinishRefusal::StaleWindow));
    assert_eq!(check_finish(true, true), Err(FinishRefusal::NullReceiver));
    assert!(is_task_root(true, Some(true)));
    assert!(!is_task_root(true, None));
    assert!(!is_task_root(false, Some(true)));
}

#[test]
fn a_turn_of_the_main_thread_is_bounded() {
    let mut in_turn = false;
    assert!(enter_turn(&mut in_turn));
    assert!(!enter_turn(&mut in_turn));
    leave_turn(&mut in_turn);
    assert!(enter_turn(&mut in_turn));
    assert!(looks_for_message(0, false));
    assert!(looks_for_message(MAIN_LOOPER_MESSAGE_BUDGET - 1, false));
    assert!(!looks_for_message(512, false));
    assert!(!looks_for_message(3, true));
    assert_eq!(message_steps(true), [MessageStep::Dispatch, MessageStep::Recycle]);
    assert_eq!(message_steps(false), [MessageStep::Recycle]);
    assert_eq!(turn_result(Err("m"), Err("l")), Err("m"));
    assert_eq!(turn_result(Ok(()), Err("l")), Err("l"));
    assert_eq!(turn_result::<&str>(Ok(()), Ok(())), Ok(()));
}

#[test]
fn libraries_are_loaded_once_and_failures_are_worded() {
    assert_eq!(native_load_plan("/x/a.so", true, false), NativeLoad::Preloaded);
    assert_eq!(native_load_plan("", true, true), NativeLoad::Delegate);
    assert_eq!(native_load_plan("/x/a.so", false, false), NativeLoad::NoLoader);
    assert_eq!(native_load_plan("/x\0/a.so", false, true), NativeLoad::InvalidPath);
    assert_eq!(native_load_plan("/x/a.so", false, true), NativeLoad::Delegate);
    assert_eq!(
        no_loader_message("a.so"),
        "Eclipse: cannot load \"a.so\": ART JavaVMExt::LoadNativeLibrary not found (is libart RTLD_GLOBAL?)"
    );
    assert_eq!(
        invalid_path_message("a.so"),
        "Eclipse: invalid library path \"a.so\""
    );
    assert_eq!(load_failure_message("a.so", ""), "Eclipse: failed to load \"a.so\"");
    assert_eq!(load_failure_message("a.so", "dlopen failed"), "dlopen failed");
    assert_eq!(reported_length(b"oops\0\0x"), 4);
    assert_eq!(reported_length(b"oops"), 4);
    assert_eq!(reported_length(b""), 0);
}

#[test]
fn errors_are_worded() {
    assert_eq!(
        FrameworkError::NullVm.message(),
        "framework driver received a null JavaVM pointer"
    );
    assert_eq!(
        FrameworkError::ActivityTrackerPoisoned.message(),
        "the framework Activity tracker was poisoned"
    );
    assert_eq!(
        FrameworkError::GlobalLayoutObserverRegistryPoisoned.message(),
        "the framework global-layout observer registry was poisoned"
    );
    assert_eq!(
        FrameworkError::Jni("boom".to_string()).message(),
        "JNI error driving the framework lifecycle: boom"
    );
    assert_eq!(
        FrameworkError::Panicked.message(),
        "a panic was caught at the framework JNI boundary (not propagated)"
    );
    assert_eq!(
        FrameworkError::WindowRegistry("full".to_string()).message(),
        "window-registry handle allocation failed: full"
    );
    assert_eq!(
        FrameworkError::ViewRegistry("stale".to_string()).message(),
        "view-registry operation failed: stale"
    );
    assert!(matches!(
        guarded::<i64>(true, Some(Ok(1))),
        Err(FrameworkError::NullVm)
    ));
    assert!(matches!(guarded::<i64>(false, None), Err(FrameworkError::Panicked)));
    assert!(matches!(guarded(false, Some(Ok(7))), Ok(7)));
}
