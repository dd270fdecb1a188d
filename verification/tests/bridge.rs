use neovide::bridge::ui_commands::coalesce;
use neovide::bridge::{
    accepts, attach_options, frontend_variable, lazy_redraw_option, version_message,
    version_query, version_supported, AttachOptions, LoopEnd, Report, StartupFailure,
    StartupStep, UiCommand, Verdict, EXIT_CODE,
};
use rmpv::Value;

fn resize(width: u64, height: u64) -> UiCommand {
    UiCommand::Resize { width, height }
}

fn key(text: &str) -> UiCommand {
    UiCommand::Keyboard(text.to_string())
}

#[test]
fn only_resizes_are_resizes() {
    assert!(resize(1, 2).is_resize());
    assert!(!key("a").is_resize());
    assert!(!UiCommand::FocusLost.is_resize());
    assert!(!UiCommand::FocusGained.is_resize());
    assert!(!UiCommand::Drag { column: 1, row: 2 }.is_resize());
    assert!(!UiCommand::Scroll { direction: "up".to_string(), column: 1, row: 2 }.is_resize());
    assert!(!UiCommand::MouseButton { action: "press".to_string(), column: 1, row: 2 }.is_resize());
}

#[test]
fn last_resize_is_dispatched_first() {
    let batch = vec![key("a"), resize(10, 10), key("b"), resize(20, 20), UiCommand::FocusLost, resize(30, 30), key("c")];
    assert_eq!(
        coalesce(batch),
        vec![resize(30, 30), key("a"), key("b"), UiCommand::FocusLost, key("c")]
    );
}

#[test]
fn a_storm_of_resizes_leaves_one() {
    let batch: Vec<UiCommand> = (1..=100).map(|size| resize(size, size)).collect();
    assert_eq!(coalesce(batch), vec![resize(100, 100)]);
}

#[test]
fn a_batch_without_resize_is_dispatched_as_it_arrived() {
    let batch = vec![key("a"), UiCommand::FocusGained, key("b"), key("a")];
    assert_eq!(coalesce(batch), vec![key("a"), UiCommand::FocusGained, key("b"), key("a")]);
    assert_eq!(coalesce(Vec::new()), Vec::new());
}

#[test]
fn a_single_command_is_dispatched() {
    assert_eq!(coalesce(vec![resize(1, 2)]), vec![resize(1, 2)]);
    assert_eq!(coalesce(vec![key("x")]), vec![key("x")]);
}

#[test]
fn equal_resizes_are_coalesced_too() {
    assert_eq!(coalesce(vec![resize(1, 2), key("x"), resize(1, 2)]), vec![resize(1, 2), key("x")]);
}

#[test]
fn startup_takes_its_steps_in_order() {
    let mut step = StartupStep::first();
    let mut taken = vec![step];
    loop {
        match step.proceed(true) {
            Verdict::Continue(next) => {
                taken.push(next);
                step = next;
            }
            verdict => {
                assert_eq!(verdict, Verdict::Ready);
                break;
            }
        }
    }
    assert_eq!(
        taken,
        vec![
            StartupStep::Spawn,
            StartupStep::Watch,
            StartupStep::CheckVersion,
            StartupStep::Announce,
            StartupStep::Attach,
            StartupStep::Dispatch,
            StartupStep::ReadSettings,
            StartupStep::WatchSettings,
            StartupStep::DisableLazyRedraw,
        ]
    );
}

#[test]
fn failures_end_the_start_or_are_passed_over() {
    assert_eq!(StartupStep::Spawn.proceed(false), Verdict::Abort(StartupFailure::ProcessNotStarted));
    assert_eq!(StartupStep::Watch.proceed(false), Verdict::Continue(StartupStep::CheckVersion));
    assert_eq!(StartupStep::CheckVersion.proceed(false), Verdict::Exit);
    assert_eq!(StartupStep::Announce.proceed(false), Verdict::Abort(StartupFailure::NoCommunication));
    assert_eq!(StartupStep::Attach.proceed(false), Verdict::Abort(StartupFailure::NotAttached));
    assert_eq!(StartupStep::Dispatch.proceed(false), Verdict::Continue(StartupStep::ReadSettings));
    assert_eq!(StartupStep::ReadSettings.proceed(false), Verdict::Continue(StartupStep::WatchSettings));
    assert_eq!(StartupStep::WatchSettings.proceed(false), Verdict::Abort(StartupFailure::NoSettingNotifier));
    assert_eq!(StartupStep::DisableLazyRedraw.proceed(false), Verdict::Ready);
}

#[test]
fn failures_have_their_diagnostics() {
    assert_eq!(StartupFailure::ProcessNotStarted.message(), "Could not locate or start the neovim process");
    assert_eq!(StartupFailure::NoCommunication.message(), "Could not communicate with neovim process");
    assert_eq!(StartupFailure::NotAttached.message(), "Could not attach ui to neovim process");
    assert_eq!(StartupFailure::NoSettingNotifier.message(), "Could not setup setting notifier for a setting");
    assert_eq!(version_message(), "Neovide requires version 0.4 or higher");
}

#[test]
fn only_the_number_one_accepts_the_version() {
    assert!(accepts(Some(1)));
    assert!(!accepts(Some(0)));
    assert!(!accepts(Some(2)));
    assert!(!accepts(Some(-1)));
    assert!(!accepts(Some(i64::MAX)));
    assert!(!accepts(None));
}

#[test]
fn version_answer_must_be_the_integer_one() {
    assert!(version_supported(&Value::from(1)));
    assert!(version_supported(&Value::from(1u64)));
    assert!(!version_supported(&Value::from(0)));
    assert!(!version_supported(&Value::from(2)));
    assert!(!version_supported(&Value::from(-1)));
    assert!(!version_supported(&Value::from(u64::MAX)));
    assert!(!version_supported(&Value::Boolean(true)));
    assert!(!version_supported(&Value::from("1")));
    assert!(!version_supported(&Value::Nil));
    assert!(!version_supported(&Value::Array(vec![Value::from(1)])));
}

#[test]
fn what_the_editor_is_asked_and_told() {
    assert_eq!(version_query(), "has(\"nvim-0.4\")");
    assert_eq!(frontend_variable(), "neovide");
    assert_eq!(lazy_redraw_option(), "lazyredraw");
    assert_eq!(attach_options(), AttachOptions { linegrid_external: true, rgb: true });
}

#[test]
fn the_front_end_ends_with_the_editor() {
    assert_eq!(LoopEnd::Finished.watch(), (Report::Silent, 0));
    assert_eq!(LoopEnd::Failed { channel_closed: true }.watch(), (Report::Silent, 0));
    assert_eq!(LoopEnd::Failed { channel_closed: false }.watch(), (Report::Log, 0));
    assert_eq!(LoopEnd::JoinFailed.watch(), (Report::ErrorStream, 0));
    assert_eq!(EXIT_CODE, 0);
}
