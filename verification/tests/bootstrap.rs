use shell_bootstrap::lifecycle::Bootstrap;
use shell_bootstrap::lifecycle::standard_bootstrap;
use shell_bootstrap::outcome::RunOutcome;
use shell_bootstrap::outcome::after_run;
use shell_bootstrap::plugin::PluginConfig;
use shell_bootstrap::plugin::standard_plugins;
use shell_bootstrap::suppression::Suppression;
use shell_bootstrap::suppression::SuppressionFlags;

const ALL_SUPPRESSIONS: [Suppression; 10] = [
    Suppression::Find,
    Suppression::CaretBrowsing,
    Suppression::DevTools,
    Suppression::Downloads,
    Suppression::FocusMove,
    Suppression::Reload,
    Suppression::ViewSource,
    Suppression::Open,
    Suppression::Print,
    Suppression::ContextMenu,
];

#[test]
fn complete_set_suppresses_every_behavior() {
    let all = SuppressionFlags::all();
    for s in ALL_SUPPRESSIONS {
        assert!(all.contains(s));
    }
    assert!(all.is_all());
}

#[test]
fn empty_set_suppresses_nothing() {
    let empty = SuppressionFlags::empty();
    for s in ALL_SUPPRESSIONS {
        assert!(!empty.contains(s));
    }
    assert!(!empty.is_all());
}

#[test]
fn flag_word_of_complete_set_is_exact() {
    assert_eq!(SuppressionFlags::all().bits(), 1023);
    assert_eq!(SuppressionFlags::empty().bits(), 0);
}

#[test]
fn flag_word_weighs_each_switch_once() {
    assert_eq!(SuppressionFlags::empty().with(Suppression::Find).bits(), 1);
    assert_eq!(SuppressionFlags::empty().with(Suppression::ContextMenu).bits(), 512);
    let two = SuppressionFlags::empty().with(Suppression::DevTools).with(Suppression::Print);
    assert_eq!(two.bits(), 4 + 256);
}

#[test]
fn a_subset_is_not_the_complete_set() {
    let subset = SuppressionFlags::empty()
        .with(Suppression::ContextMenu)
        .with(Suppression::Reload);
    assert!(subset.contains(Suppression::ContextMenu));
    assert!(subset.contains(Suppression::Reload));
    assert!(!subset.contains(Suppression::Find));
    assert!(!subset.is_all());
}

#[test]
fn standard_plan_names_both_plugins_in_order() {
    let plan = standard_plugins();
    assert_eq!(plan.len(), 2);
    assert!(matches!(plan[0], PluginConfig::Opener));
    match plan[1] {
        PluginConfig::PreventDefault(flags) => {
            for s in ALL_SUPPRESSIONS {
                assert!(flags.contains(s));
            }
            assert!(flags.is_all());
        }
        PluginConfig::Opener => panic!("second plugin of the plan must be prevent-default"),
    }
}

#[test]
fn standard_bootstrap_starts_run_loop_exactly_once() {
    let shell = standard_bootstrap();
    assert!(shell.is_running());
    assert!(!shell.is_configuring());
    assert_eq!(shell.runs_started(), 1);
}

#[test]
fn plugins_are_registered_before_run_loop_starts() {
    let mut shell = Bootstrap::new();
    assert!(shell.is_configuring());
    assert_eq!(shell.runs_started(), 0);
    shell.register_plugin(PluginConfig::Opener);
    shell.register_plugin(PluginConfig::PreventDefault(SuppressionFlags::all()));
    assert_eq!(shell.runs_started(), 0);
    assert_eq!(shell.plugins().len(), 2);
    shell.start_run();
    assert!(shell.is_running());
    assert_eq!(shell.runs_started(), 1);
    assert_eq!(shell.plugins().len(), 2);
}

#[test]
fn startup_failure_exits_nonzero_with_diagnostic() {
    let outcome = RunOutcome::StartupFailure("no display available".to_string());
    let report = after_run(outcome);
    assert_ne!(report.code, 0);
    assert_eq!(report.code, 1);
    let message = report.message.expect("a startup failure must carry a diagnostic");
    assert!(!message.is_empty());
    assert_eq!(message, "error while running tauri application: no display available");
}

#[test]
fn external_exit_reports_success_without_diagnostic() {
    let report = after_run(RunOutcome::ExternalExit);
    assert_eq!(report.code, 0);
    assert!(report.message.is_none());
}

#[test]
fn concluded_lifecycle_keeps_its_single_run() {
    let mut shell = standard_bootstrap();
    let report = shell.conclude(RunOutcome::StartupFailure("display init failed".to_string()));
    assert!(!shell.is_running());
    assert!(!shell.is_configuring());
    assert_eq!(shell.runs_started(), 1);
    assert_eq!(shell.plugins().len(), 2);
    assert_eq!(report.code, 1);
    assert_eq!(
        report.message.as_deref(),
        Some("error while running tauri application: display init failed"),
    );
}

#[test]
fn clean_conclusion_reports_success() {
    let mut shell = standard_bootstrap();
    let report = shell.conclude(RunOutcome::ExternalExit);
    assert_eq!(report.code, 0);
    assert!(report.message.is_none());
    assert_eq!(shell.runs_started(), 1);
}
