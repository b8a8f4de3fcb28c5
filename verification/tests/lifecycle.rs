use verge_core::config::{ConfigState, CoreSettings, DocStore, SettingsStore};
use verge_core::manager::{
    CoreError, CoreManager, ExecutionStrategy, PushDecision, StartPlan, StopPlan, SwitchRestart,
    UpdateStep, ValidationEvent, APPLY_RETRY_PAUSE_MILLIS,
};

fn fresh_config() -> ConfigState {
    ConfigState {
        clash: DocStore::new(String::from("clash-committed")),
        verge: SettingsStore::new(CoreSettings {
            clash_core: Some(String::from("verge-mihomo")),
            enable_global_hotkey: true,
            hotkeys: None,
        }),
        runtime: DocStore::new(String::from("runtime-committed")),
    }
}

#[test]
fn start_when_running_is_a_no_op() {
    let mut m = CoreManager::new(fresh_config());
    m.start_core_finish(true);
    assert!(m.is_running());
    let p = m.start_core_plan(false);
    assert!(matches!(p, StartPlan::AlreadyRunning));
    let p = m.start_core_plan(true);
    assert!(matches!(p, StartPlan::AlreadyRunning));
}

#[test]
fn stop_when_not_running_is_a_no_op() {
    let m = CoreManager::new(fresh_config());
    let p = m.stop_core_plan(false);
    assert!(matches!(p, StopPlan::NotRunning));
    let p = m.stop_core_plan(true);
    assert!(matches!(p, StopPlan::NotRunning));
}

#[test]
fn end_to_end_direct_process_start_then_stop() {
    let mut m = CoreManager::new(fresh_config());
    assert!(!m.is_running());
    match m.start_core_plan(false) {
        StartPlan::Launch { strategy, core } => {
            assert!(matches!(strategy, ExecutionStrategy::DirectProcess));
            assert_eq!(core, "verge-mihomo");
        },
        StartPlan::AlreadyRunning => panic!("engine was not running yet"),
    }
    m.start_core_finish(true);
    assert!(m.is_running());
    match m.stop_core_plan(false) {
        StopPlan::ShutDown { strategy } => {
            assert!(matches!(strategy, ExecutionStrategy::DirectProcess));
        },
        StopPlan::NotRunning => panic!("engine was running"),
    }
    m.stop_core_finish(true);
    assert!(!m.is_running());
}

#[test]
fn failed_launch_leaves_the_engine_stopped() {
    let mut m = CoreManager::new(fresh_config());
    m.start_core_finish(false);
    assert!(!m.is_running());
}

#[test]
fn service_probe_selects_the_strategy() {
    let m = CoreManager::new(fresh_config());
    match m.start_core_plan(true) {
        StartPlan::Launch { strategy, .. } => {
            assert!(matches!(strategy, ExecutionStrategy::ServiceManaged));
        },
        StartPlan::AlreadyRunning => panic!("engine was not running yet"),
    }
}

#[test]
fn current_core_defaults_to_the_stable_build() {
    let mut cfg = fresh_config();
    cfg.verge = SettingsStore::new(CoreSettings {
        clash_core: None,
        enable_global_hotkey: true,
        hotkeys: None,
    });
    let m = CoreManager::new(cfg);
    assert_eq!(m.current_core(), "verge-mihomo");
}

#[test]
fn kill_targets_cover_both_variants() {
    let v = CoreManager::kill_target_names();
    assert_eq!(v, vec![String::from("verge-mihomo"), String::from("verge-mihomo-alpha")]);
}

#[test]
fn update_config_commits_on_third_attempt() {
    let mut m = CoreManager::new(fresh_config());
    m.update_config_begin(String::from("generated-v2"));
    let step = m.update_config_on_validation(ValidationEvent::Passed);
    assert!(matches!(step, Ok(UpdateStep::Push)));
    let mut t = CoreManager::new_push_tracker();
    let d = m.update_config_on_push(&mut t, Some(String::from("connection refused")));
    match d {
        PushDecision::Retry { pause_millis } => assert_eq!(pause_millis, APPLY_RETRY_PAUSE_MILLIS),
        _ => panic!("first failure must order a retry"),
    }
    let d = m.update_config_on_push(&mut t, Some(String::from("connection refused")));
    assert!(matches!(d, PushDecision::Retry { .. }));
    let d = m.update_config_on_push(&mut t, None);
    assert!(matches!(d, PushDecision::Committed));
    assert_eq!(m.config.runtime.latest, "generated-v2");
    assert!(m.config.runtime.draft.is_none());
}

#[test]
fn update_config_discards_after_three_failures() {
    let mut m = CoreManager::new(fresh_config());
    m.update_config_begin(String::from("generated-v2"));
    let step = m.update_config_on_validation(ValidationEvent::Passed);
    assert!(matches!(step, Ok(UpdateStep::Push)));
    let mut t = CoreManager::new_push_tracker();
    assert!(matches!(
        m.update_config_on_push(&mut t, Some(String::from("e1"))),
        PushDecision::Retry { .. }
    ));
    assert!(matches!(
        m.update_config_on_push(&mut t, Some(String::from("e2"))),
        PushDecision::Retry { .. }
    ));
    match m.update_config_on_push(&mut t, Some(String::from("e3"))) {
        PushDecision::Abandoned(msg) => assert_eq!(msg, "e3"),
        _ => panic!("the third failure must abandon the run"),
    }
    assert_eq!(m.config.runtime.latest, "runtime-committed");
    assert!(m.config.runtime.draft.is_none());
}

#[test]
fn update_config_rejection_discards_the_draft() {
    let mut m = CoreManager::new(fresh_config());
    m.update_config_begin(String::from("generated-bad"));
    match m.update_config_on_validation(ValidationEvent::Failed(String::from("bad rule"))) {
        Ok(UpdateStep::Rejected(msg)) => assert_eq!(msg, "bad rule"),
        _ => panic!("a failed validation must reject the candidate"),
    }
    assert_eq!(m.config.runtime.latest, "runtime-committed");
    assert!(m.config.runtime.draft.is_none());
}

#[test]
fn update_config_validation_error_discards_the_draft() {
    let mut m = CoreManager::new(fresh_config());
    m.update_config_begin(String::from("generated-v3"));
    match m.update_config_on_validation(ValidationEvent::Errored(String::from("spawn failed"))) {
        Err(msg) => assert_eq!(msg, "spawn failed"),
        Ok(_) => panic!("a validation error must surface"),
    }
    assert!(m.config.runtime.draft.is_none());
}

#[test]
fn change_core_rejects_a_missing_variant() {
    let mut m = CoreManager::new(fresh_config());
    match m.change_core(None) {
        Err(e) => {
            assert!(matches!(e, CoreError::NullCore));
            assert_eq!(e.message(), "clash core is null");
        },
        Ok(_) => panic!("a missing variant must be rejected"),
    }
    assert!(m.config.verge.draft.is_none());
    assert!(m.config.runtime.draft.is_none());
    assert_eq!(m.config.verge.latest.clash_core, Some(String::from("verge-mihomo")));
}

#[test]
fn change_core_rejects_an_unknown_variant() {
    let mut m = CoreManager::new(fresh_config());
    match m.change_core(Some(String::from("not-a-real-core"))) {
        Err(e) => {
            assert_eq!(e.message(), "invalid clash core name \"not-a-real-core\"");
        },
        Ok(_) => panic!("an unknown variant must be rejected"),
    }
    assert!(m.config.verge.draft.is_none());
    assert!(m.config.runtime.draft.is_none());
    assert_eq!(m.config.verge.latest.clash_core, Some(String::from("verge-mihomo")));
    assert_eq!(m.config.runtime.latest, "runtime-committed");
}

#[test]
fn change_core_validation_failure_falls_back_to_default_config() {
    let mut m = CoreManager::new(fresh_config());
    assert!(m.change_core(Some(String::from("verge-mihomo-alpha"))).is_ok());
    let order = m.change_core_on_validation(ValidationEvent::Failed(String::from("bad dns block")));
    let notices = match order {
        Ok(SwitchRestart { fallback, notice }) => {
            assert!(fallback);
            let mut count = 0;
            if let Some(n) = notice {
                assert_eq!(n.kind, "config_validate::core_change");
                assert_eq!(n.message, "bad dns block");
                count += 1;
            }
            count
        },
        Err(_) => panic!("a validation failure still switches the core"),
    };
    assert_eq!(notices, 1, "the fallback notice fires exactly once");
    assert_eq!(m.config.verge.latest.clash_core, Some(String::from("verge-mihomo-alpha")));
    assert_eq!(m.config.runtime.draft, Some(String::from("clash-committed")));
    assert!(m.change_core_on_restart(true, None).is_ok());
    assert_eq!(m.config.verge.latest.clash_core, Some(String::from("verge-mihomo-alpha")));
}

#[test]
fn change_core_restart_failure_reverts_the_drafts() {
    let mut m = CoreManager::new(fresh_config());
    m.update_config_begin(String::from("pending-runtime"));
    assert!(m.change_core(Some(String::from("verge-mihomo-alpha"))).is_ok());
    let order = m.change_core_on_validation(ValidationEvent::Passed);
    match order {
        Ok(SwitchRestart { fallback, notice }) => {
            assert!(!fallback);
            assert!(notice.is_none());
        },
        Err(_) => panic!("a validation pass proceeds to restart"),
    }
    match m.change_core_on_restart(false, Some(String::from("spawn failed"))) {
        Err(e) => assert_eq!(e.message(), "spawn failed"),
        Ok(_) => panic!("a restart failure must surface"),
    }
    assert!(m.config.verge.draft.is_none());
    assert!(m.config.runtime.draft.is_none());
    assert_eq!(m.config.runtime.latest, "runtime-committed");
}

#[test]
fn change_core_success_commits_the_runtime_draft() {
    let mut m = CoreManager::new(fresh_config());
    m.update_config_begin(String::from("pending-runtime"));
    assert!(m.change_core(Some(String::from("verge-mihomo-alpha"))).is_ok());
    assert!(m.change_core_on_validation(ValidationEvent::Passed).is_ok());
    assert!(m.change_core_on_restart(false, None).is_ok());
    assert_eq!(m.config.verge.latest.clash_core, Some(String::from("verge-mihomo-alpha")));
    assert_eq!(m.config.runtime.latest, "pending-runtime");
    assert!(m.config.runtime.draft.is_none());
}

#[test]
fn change_core_validation_error_discards_the_settings_draft() {
    let mut m = CoreManager::new(fresh_config());
    assert!(m.change_core(Some(String::from("verge-mihomo-alpha"))).is_ok());
    match m.change_core_on_validation(ValidationEvent::Errored(String::from("no binary"))) {
        Err(e) => assert_eq!(e.message(), "no binary"),
        Ok(_) => panic!("a validation error aborts the switch"),
    }
    assert!(m.config.verge.draft.is_none());
    assert_eq!(m.config.verge.latest.clash_core, Some(String::from("verge-mihomo")));
}

#[test]
fn use_default_config_drafts_the_committed_clash_document() {
    let mut m = CoreManager::new(fresh_config());
    let n = m.use_default_config("config_validate::core_change", "bad rule");
    assert_eq!(n.kind, "config_validate::core_change");
    assert_eq!(n.message, "bad rule");
    assert_eq!(m.config.runtime.draft, Some(String::from("clash-committed")));
    assert_eq!(m.config.runtime.latest, "runtime-committed");
}
