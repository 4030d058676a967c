use hvac_shell::bootstrap::conclude_run;
use hvac_shell::bootstrap::diagnostic;
use hvac_shell::bootstrap::plan_startup;
use hvac_shell::bootstrap::startup_config;
use hvac_shell::bootstrap::Action;
use hvac_shell::bootstrap::ContextOutcome;
use hvac_shell::bootstrap::LoopOutcome;
use hvac_shell::shell::AppContext;
use hvac_shell::shell::Capability;
use hvac_shell::shell::ShellConfig;

fn sample_context() -> AppContext {
    AppContext {
        identifier: String::from("com.example.hvac-simulator"),
        window_title: String::from("HVAC Simulator"),
        window_width: 1024,
        window_height: 768,
    }
}

#[test]
fn successful_startup_registers_both_capabilities() {
    let action = plan_startup(ContextOutcome::Generated(sample_context()));
    match action {
        Action::StartEventLoop(config) => {
            assert!(config.is_registered(Capability::Dialog));
            assert!(config.is_registered(Capability::Filesystem));
            assert_eq!(
                config.plugins,
                vec![Capability::Dialog, Capability::Filesystem]
            );
            assert_eq!(config.context, sample_context());
        }
        other => panic!("startup did not reach the event loop: {:?}", other),
    }
}

#[test]
fn registration_order_does_not_matter() {
    let mut dialog_first = ShellConfig::new(sample_context());
    dialog_first.register(Capability::Dialog);
    dialog_first.register(Capability::Filesystem);

    let mut filesystem_first = ShellConfig::new(sample_context());
    filesystem_first.register(Capability::Filesystem);
    filesystem_first.register(Capability::Dialog);

    for cap in [Capability::Dialog, Capability::Filesystem] {
        assert_eq!(
            dialog_first.is_registered(cap),
            filesystem_first.is_registered(cap)
        );
        assert!(dialog_first.is_registered(cap));
    }
    assert_eq!(dialog_first.context, filesystem_first.context);
}

#[test]
fn fresh_configuration_registers_nothing() {
    let config = ShellConfig::new(sample_context());
    assert!(!config.is_registered(Capability::Dialog));
    assert!(!config.is_registered(Capability::Filesystem));
    assert!(config.plugins.is_empty());
}

#[test]
fn startup_config_orders_dialog_then_filesystem() {
    let config = startup_config(sample_context());
    assert_eq!(
        config.plugins,
        vec![Capability::Dialog, Capability::Filesystem]
    );
}

#[test]
fn generation_failure_aborts_before_any_registration() {
    let action = plan_startup(ContextOutcome::Failed(String::from("missing icon set")));
    match action {
        Action::AbortWithDiagnostic(message) => {
            assert_eq!(
                message,
                "error while running tauri application: missing icon set"
            );
        }
        other => panic!("generation failure did not abort: {:?}", other),
    }
}

#[test]
fn loop_start_failure_terminates_with_diagnostic() {
    let action = conclude_run(LoopOutcome::FailedToStart(String::from(
        "platform window-system unavailable",
    )));
    match action {
        Action::AbortWithDiagnostic(message) => {
            assert_eq!(
                message,
                "error while running tauri application: platform window-system unavailable"
            );
        }
        other => panic!("loop-start failure did not abort: {:?}", other),
    }
}

#[test]
fn completed_loop_exits_normally() {
    assert_eq!(conclude_run(LoopOutcome::Completed), Action::ExitNormally);
}

#[test]
fn no_return_until_double_loop_is_told_to_exit() {
    // A test double for the event loop: it keeps running until an external
    // termination command arrives, and only then reports an outcome. The
    // bootstrap concludes nothing while the double is still looping.
    let action = plan_startup(ContextOutcome::Generated(sample_context()));
    let config = match action {
        Action::StartEventLoop(config) => config,
        other => panic!("startup did not reach the event loop: {:?}", other),
    };
    assert!(config.is_registered(Capability::Dialog));

    let mut conclusion: Option<Action> = None;
    let mut ticks_until_exit_command: u32 = 5;
    let outcome = loop {
        if ticks_until_exit_command == 0 {
            break LoopOutcome::Completed;
        }
        assert!(conclusion.is_none());
        ticks_until_exit_command -= 1;
    };
    conclusion = Some(conclude_run(outcome));
    assert_eq!(conclusion, Some(Action::ExitNormally));
}

#[test]
fn repeated_bootstrap_is_deterministic() {
    let first = plan_startup(ContextOutcome::Generated(sample_context()));
    let second = plan_startup(ContextOutcome::Generated(sample_context()));
    assert_eq!(first, second);

    let first_failure = plan_startup(ContextOutcome::Failed(String::from("boom")));
    let second_failure = plan_startup(ContextOutcome::Failed(String::from("boom")));
    assert_eq!(first_failure, second_failure);

    let first_conclusion = conclude_run(LoopOutcome::Completed);
    let second_conclusion = conclude_run(LoopOutcome::Completed);
    assert_eq!(first_conclusion, second_conclusion);
}

#[test]
fn diagnostic_appends_detail_to_summary() {
    assert_eq!(
        diagnostic(""),
        "error while running tauri application: "
    );
    assert_eq!(
        diagnostic("context generation failed"),
        "error while running tauri application: context generation failed"
    );
}

#[test]
fn register_keeps_insertion_order_and_context() {
    let mut config = ShellConfig::new(sample_context());
    config.register(Capability::Filesystem);
    assert_eq!(config.plugins, vec![Capability::Filesystem]);
    config.register(Capability::Dialog);
    assert_eq!(
        config.plugins,
        vec![Capability::Filesystem, Capability::Dialog]
    );
    assert_eq!(config.context, sample_context());
}
