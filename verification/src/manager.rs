//! The process and configuration lifecycle manager: owns the single
//! running-state flag, plans engine start/stop under the two execution
//! strategies, sequences the config apply pipeline with bounded retry, and
//! performs the core-switch workflow with rollback on failure.
//!
//! Every step that waits on the outside world — generating a file, probing
//! the privileged service, spawning or killing the engine, pushing to the
//! live control endpoint — is carried out by the caller, which feeds the
//! observed outcome back into the next step. The decisions, and every
//! mutation of the configuration stores, are made here.
use vstd::prelude::*;
use vstd::string::*;
use crate::config::{
    clash_unchanged, config_unchanged, doc_draft, doc_latest, runtime_unchanged, settings_draft,
    settings_draft_base, settings_latest, verge_unchanged, ConfigState, CoreSettingsV,
};
use crate::text::str_eq;

verus! {

/// How the engine is started and stopped: driven by the privileged
/// background service, or spawned directly as a child process. Re-probed at
/// every start/stop call, never cached.
pub enum ExecutionStrategy {
    ServiceManaged,
    DirectProcess,
}

/// The grace period after a direct spawn, for the engine to bind its control
/// endpoint, in milliseconds.
pub const START_GRACE_MILLIS: u64 = 500;

/// The pause between attempts to push a config to the live engine, in
/// milliseconds.
pub const APPLY_RETRY_PAUSE_MILLIS: u64 = 100;

/// How many times a live-config push is attempted before giving up.
pub const APPLY_MAX_ATTEMPTS: u64 = 3;

/// A name is on the fixed allowlist of engine binary variants.
pub open spec fn is_allowed_core(name: Seq<char>) -> bool {
    name == "verge-mihomo"@ || name == "verge-mihomo-alpha"@
}

/// Whether a name is on the fixed allowlist of engine binary variants.
pub fn allowed_core(name: &str) -> (r: bool)
    ensures
        r == is_allowed_core(name@),
{
    str_eq(name, "verge-mihomo") || str_eq(name, "verge-mihomo-alpha")
}

/// The engine variant the settings select, with the stable build as default.
pub open spec fn active_core_name(s: CoreSettingsV) -> Seq<char> {
    match s.clash_core {
        Some(c) => c,
        None => "verge-mihomo"@,
    }
}

/// A `(kind, message)` event for the notification layer.
pub struct Notice {
    pub kind: String,
    pub message: String,
}

/// An error of the core-switch workflow.
pub enum CoreError {
    /// No variant was named.
    NullCore,
    /// The named variant is not on the allowlist.
    InvalidCoreName(String),
    /// Validation did not run to completion.
    ValidationError(String),
    /// The engine could not be restarted.
    RestartError(String),
}

/// The text of a core-switch error.
pub open spec fn core_error_text(e: &CoreError) -> Seq<char> {
    match e {
        CoreError::NullCore => "clash core is null"@,
        CoreError::InvalidCoreName(n) => "invalid clash core name \""@ + n@ + "\""@,
        CoreError::ValidationError(m) => m@,
        CoreError::RestartError(m) => m@,
    }
}

impl CoreError {
    /// Renders the error for display.
    pub fn message(&self) -> (m: String)
        ensures
            m@ == core_error_text(self),
    {
        match self {
            CoreError::NullCore => String::from_str("clash core is null"),
            CoreError::InvalidCoreName(n) => {
                let mut m = String::from_str("invalid clash core name \"");
                m.append(n.as_str());
                m.append("\"");
                m
            },
            CoreError::ValidationError(m) => m.clone(),
            CoreError::RestartError(m) => m.clone(),
        }
    }
}

/// What a start call must do next.
pub enum StartPlan {
    /// The engine is already running: succeed without spawning anything and
    /// without regenerating any config.
    AlreadyRunning,
    /// Generate the run-type config file, then launch `core` under the given
    /// strategy and wait the grace period.
    Launch { strategy: ExecutionStrategy, core: String },
}

/// What a stop call must do next.
pub enum StopPlan {
    /// The engine is not running: succeed without issuing any kill.
    NotRunning,
    /// Disable tunnel mode best-effort, then stop under the given strategy;
    /// a direct-process stop kills every allowlisted binary name.
    ShutDown { strategy: ExecutionStrategy },
}

/// How validation of the drafted configuration ended: a verdict either way,
/// or an error that kept the verdict from being produced.
pub enum ValidationEvent {
    Passed,
    Failed(String),
    Errored(String),
}

/// What the core-switch workflow does after validation: restart the engine,
/// delivering the fallback notice first when one is returned.
pub struct SwitchRestart {
    pub fallback: bool,
    pub notice: Option<Notice>,
}

/// What the apply pipeline does after validation.
pub enum UpdateStep {
    /// Generate the run-type file and begin pushing it to the live engine.
    Push,
    /// The candidate was rejected; the runtime draft has been discarded.
    Rejected(String),
}

/// Counts failed push attempts within one apply-pipeline run.
pub struct PushTracker {
    pub failures: u64,
}

/// What the apply pipeline does after one push attempt.
pub enum PushDecision {
    /// The push succeeded and the runtime draft has been committed.
    Committed,
    /// Pause for `pause_millis`, then push again.
    Retry { pause_millis: u64 },
    /// Every attempt failed; the runtime draft has been discarded and the
    /// last error is reported.
    Abandoned(String),
}

/// The lifecycle manager: the single running-state flag and the three
/// configuration stores. Exactly one instance exists per process; callers
/// serialize start/stop/restart around it.
pub struct CoreManager {
    pub running: bool,
    pub config: ConfigState,
}

/// Nothing in the manager changed.
pub open spec fn manager_unchanged(a: &CoreManager, b: &CoreManager) -> bool {
    a.running == b.running && config_unchanged(&a.config, &b.config)
}

impl CoreManager {
    /// A manager for an engine that is not running.
    pub fn new(config: ConfigState) -> (m: Self)
        ensures
            !m.running,
            config_unchanged(&m.config, &config),
    {
        CoreManager { running: false, config }
    }

    /// Whether the engine is considered running.
    pub fn is_running(&self) -> (r: bool)
        ensures
            r == self.running,
    {
        self.running
    }

    /// The engine variant that start and validation must use: the drafted
    /// variant when a settings draft is pending, the committed one otherwise,
    /// with the stable build as default.
    pub fn current_core(&self) -> (r: String)
        ensures
            r@ == active_core_name(settings_draft_base(&self.config.verge)),
    {
        let s = match &self.config.verge.draft {
            Some(d) => d,
            None => &self.config.verge.latest,
        };
        match &s.clash_core {
            Some(c) => c.clone(),
            None => String::from_str("verge-mihomo"),
        }
    }

    /// Plans a start call: a no-op when already running, otherwise a launch
    /// under the strategy the service probe selected. Nothing is mutated.
    pub fn start_core_plan(&self, service_available: bool) -> (p: StartPlan)
        ensures
            self.running ==> p is AlreadyRunning,
            !self.running ==> (p matches StartPlan::Launch { strategy, core } && core@
                == active_core_name(settings_draft_base(&self.config.verge)) && (strategy
                is ServiceManaged <==> service_available)),
    {
        if self.running {
            StartPlan::AlreadyRunning
        } else {
            let strategy = if service_available {
                ExecutionStrategy::ServiceManaged
            } else {
                ExecutionStrategy::DirectProcess
            };
            StartPlan::Launch { strategy, core: self.current_core() }
        }
    }

    /// Records how a launch ended: the engine is running afterwards exactly
    /// when it was already running or the launch succeeded.
    pub fn start_core_finish(&mut self, launched: bool)
        ensures
            final(self).running == (old(self).running || launched),
            config_unchanged(&final(self).config, &old(self).config),
    {
        if launched {
            self.running = true;
        }
    }

    /// Plans a stop call: a no-op when not running, otherwise a shutdown
    /// under the strategy the service probe selected. Nothing is mutated.
    pub fn stop_core_plan(&self, service_available: bool) -> (p: StopPlan)
        ensures
            !self.running ==> p is NotRunning,
            self.running ==> (p matches StopPlan::ShutDown { strategy } && (strategy
                is ServiceManaged <==> service_available)),
    {
        if !self.running {
            StopPlan::NotRunning
        } else if service_available {
            StopPlan::ShutDown { strategy: ExecutionStrategy::ServiceManaged }
        } else {
            StopPlan::ShutDown { strategy: ExecutionStrategy::DirectProcess }
        }
    }

    /// Records how a shutdown ended: the engine is stopped once the shutdown
    /// sequence completed; an incomplete sequence leaves the flag as it was.
    pub fn stop_core_finish(&mut self, completed: bool)
        ensures
            final(self).running == (old(self).running && !completed),
            config_unchanged(&final(self).config, &old(self).config),
    {
        if completed {
            self.running = false;
        }
    }

    /// The binary names a direct-process stop kills: every allowlisted
    /// variant, not just the active one, to clean up stragglers.
    pub fn kill_target_names() -> (v: Vec<String>)
        ensures
            v@.len() == 2,
            v@[0]@ == "verge-mihomo"@,
            v@[1]@ == "verge-mihomo-alpha"@,
            is_allowed_core(v@[0]@) && is_allowed_core(v@[1]@),
    {
        let mut v: Vec<String> = Vec::new();
        v.push(String::from_str("verge-mihomo"));
        v.push(String::from_str("verge-mihomo-alpha"));
        v
    }

    /// Falls back to a default configuration: the runtime draft becomes the
    /// committed engine-facing document, and a notice for the caller to
    /// deliver is returned. The caller persists the new runtime file.
    pub fn use_default_config(&mut self, msg_type: &str, msg_content: &str) -> (n: Notice)
        ensures
            doc_draft(&final(self).config.runtime) == Some(doc_latest(&old(self).config.clash)),
            doc_latest(&final(self).config.runtime) == doc_latest(&old(self).config.runtime),
            clash_unchanged(&final(self).config, &old(self).config),
            verge_unchanged(&final(self).config, &old(self).config),
            final(self).running == old(self).running,
            n.kind@ == msg_type@,
            n.message@ == msg_content@,
    {
        let doc = self.config.clash.latest.clone();
        self.config.runtime.set_draft(doc);
        Notice { kind: String::from_str(msg_type), message: String::from_str(msg_content) }
    }

    /// Begins a core switch: rejects a missing or unknown variant before any
    /// state is mutated; an allowed variant is written into the settings
    /// draft, not yet committed. The caller then validates under the new
    /// variant and reports the outcome to `change_core_on_validation`.
    pub fn change_core(&mut self, clash_core: Option<String>) -> (r: Result<(), CoreError>)
        ensures
            clash_core is None ==> (r matches Err(e) && e is NullCore && manager_unchanged(
                final(self),
                old(self),
            )),
            clash_core matches Some(c) ==> (!is_allowed_core(c@) ==> (r matches Err(e) && (
            e matches CoreError::InvalidCoreName(n) && n@ == c@) && manager_unchanged(
                final(self),
                old(self),
            ))),
            clash_core matches Some(c) ==> (is_allowed_core(c@) ==> r is Ok && settings_latest(
                &final(self).config.verge,
            ) == settings_latest(&old(self).config.verge) && (settings_draft(
                &final(self).config.verge,
            ) matches Some(d) && d == (CoreSettingsV {
                clash_core: Some(c@),
                ..settings_draft_base(&old(self).config.verge)
            })) && clash_unchanged(&final(self).config, &old(self).config) && runtime_unchanged(
                &final(self).config,
                &old(self).config,
            ) && final(self).running == old(self).running),
    {
        match clash_core {
            None => Err(CoreError::NullCore),
            Some(c) => {
                if !allowed_core(c.as_str()) {
                    Err(CoreError::InvalidCoreName(c))
                } else {
                    self.config.verge.draft_set_core(c);
                    Ok(())
                }
            },
        }
    }

    /// Continues a core switch once validation has reported: a pass commits
    /// the settings draft and orders a plain restart; a failure falls back to
    /// the default configuration, commits the settings draft, and orders a
    /// restart that carries the fallback notice; a validation error discards
    /// the settings draft and aborts without restarting. The caller persists
    /// the committed settings file before restarting.
    pub fn change_core_on_validation(&mut self, outcome: ValidationEvent) -> (r: Result<
        SwitchRestart,
        CoreError,
    >)
        ensures
            outcome is Passed ==> (r matches Ok(o) && !o.fallback && o.notice is None)
                && final(self).config.verge.draft is None && (settings_draft(
                &old(self).config.verge,
            ) matches Some(d) ==> settings_latest(&final(self).config.verge) == d) && (
            settings_draft(&old(self).config.verge) is None ==> settings_latest(
                &final(self).config.verge,
            ) == settings_latest(&old(self).config.verge)) && clash_unchanged(
                &final(self).config,
                &old(self).config,
            ) && runtime_unchanged(&final(self).config, &old(self).config) && final(self).running
                == old(self).running,
            outcome matches ValidationEvent::Failed(msg) ==> (r matches Ok(o) && o.fallback && (
            o.notice matches Some(n) && n.kind@ == "config_validate::core_change"@ && n.message@
                == msg@)) && final(self).config.verge.draft is None && (settings_draft(
                &old(self).config.verge,
            ) matches Some(d) ==> settings_latest(&final(self).config.verge) == d) && doc_draft(
                &final(self).config.runtime,
            ) == Some(doc_latest(&old(self).config.clash)) && doc_latest(
                &final(self).config.runtime,
            ) == doc_latest(&old(self).config.runtime) && clash_unchanged(
                &final(self).config,
                &old(self).config,
            ) && final(self).running == old(self).running,
            outcome matches ValidationEvent::Errored(e) ==> (r matches Err(err)
                && err matches CoreError::ValidationError(m) && m@ == e@) && final(self).config.verge.draft is None && settings_latest(&final(self).config.verge)
                == settings_latest(&old(self).config.verge) && clash_unchanged(
                &final(self).config,
                &old(self).config,
            ) && runtime_unchanged(&final(self).config, &old(self).config) && final(self).running
                == old(self).running,
    {
        match outcome {
            ValidationEvent::Passed => {
                self.config.verge.apply();
                Ok(SwitchRestart { fallback: false, notice: None })
            },
            ValidationEvent::Failed(msg) => {
                let notice = self.use_default_config("config_validate::core_change", msg.as_str());
                self.config.verge.apply();
                Ok(SwitchRestart { fallback: true, notice: Some(notice) })
            },
            ValidationEvent::Errored(e) => {
                self.config.verge.discard();
                Err(CoreError::ValidationError(e))
            },
        }
    }

    /// Ends a core switch once the restart has been attempted. A successful
    /// plain restart commits the runtime draft; a successful fallback restart
    /// leaves the stores as they are. A failed restart discards the pending
    /// drafts — the runtime draft too on the plain path — and surfaces the
    /// error; committed values are left untouched.
    pub fn change_core_on_restart(&mut self, fallback: bool, restart_error: Option<String>) -> (r:
        Result<(), CoreError>)
        ensures
            restart_error is None && !fallback ==> r is Ok && final(self).config.runtime.draft
                is None && (doc_draft(&old(self).config.runtime) matches Some(d) ==> doc_latest(
                &final(self).config.runtime,
            ) == d) && (doc_draft(&old(self).config.runtime) is None ==> doc_latest(
                &final(self).config.runtime,
            ) == doc_latest(&old(self).config.runtime)) && clash_unchanged(
                &final(self).config,
                &old(self).config,
            ) && verge_unchanged(&final(self).config, &old(self).config) && final(self).running
                == old(self).running,
            restart_error is None && fallback ==> r is Ok && manager_unchanged(
                final(self),
                old(self),
            ),
            restart_error matches Some(e) ==> (!fallback ==> (r matches Err(err)
                && err matches CoreError::RestartError(m) && m@ == e@) && final(self).config.verge.draft is None && settings_latest(&final(self).config.verge)
                == settings_latest(&old(self).config.verge) && final(self).config.runtime.draft
                is None && doc_latest(&final(self).config.runtime) == doc_latest(
                &old(self).config.runtime,
            ) && clash_unchanged(&final(self).config, &old(self).config) && final(self).running
                == old(self).running),
            restart_error matches Some(e) ==> (fallback ==> (r matches Err(err)
                && err matches CoreError::RestartError(m) && m@ == e@) && final(self).config.verge.draft is None && settings_latest(&final(self).config.verge)
                == settings_latest(&old(self).config.verge) && runtime_unchanged(
                &final(self).config,
                &old(self).config,
            ) && clash_unchanged(&final(self).config, &old(self).config) && final(self).running
                == old(self).running),
    {
        match restart_error {
            None => {
                if !fallback {
                    self.config.runtime.apply();
                }
                Ok(())
            },
            Some(e) => {
                self.config.verge.discard();
                if !fallback {
                    self.config.runtime.discard();
                }
                Err(CoreError::RestartError(e))
            },
        }
    }

    /// Begins an apply-pipeline run: records the freshly generated merged
    /// document as the runtime draft. The caller then materializes a
    /// check-type file and validates it.
    pub fn update_config_begin(&mut self, generated: String)
        ensures
            doc_draft(&final(self).config.runtime) == Some(generated@),
            doc_latest(&final(self).config.runtime) == doc_latest(&old(self).config.runtime),
            clash_unchanged(&final(self).config, &old(self).config),
            verge_unchanged(&final(self).config, &old(self).config),
            final(self).running == old(self).running,
    {
        self.config.runtime.set_draft(generated);
    }

    /// Continues an apply-pipeline run once validation has reported: a pass
    /// orders the push phase, a failure or error discards the runtime draft
    /// and ends the run, leaving the committed value untouched.
    pub fn update_config_on_validation(&mut self, outcome: ValidationEvent) -> (r: Result<
        UpdateStep,
        String,
    >)
        ensures
            outcome is Passed ==> (r matches Ok(s) && s is Push) && manager_unchanged(
                final(self),
                old(self),
            ),
            outcome matches ValidationEvent::Failed(msg) ==> (r matches Ok(s)
                && s matches UpdateStep::Rejected(m) && m@ == msg@) && final(self).config.runtime.draft is None && doc_latest(&final(self).config.runtime) == doc_latest(
                &old(self).config.runtime,
            ) && clash_unchanged(&final(self).config, &old(self).config) && verge_unchanged(
                &final(self).config,
                &old(self).config,
            ) && final(self).running == old(self).running,
            outcome matches ValidationEvent::Errored(e) ==> (r matches Err(m) && m@ == e@) && final(self).config.runtime.draft is None && doc_latest(&final(self).config.runtime) == doc_latest(
                &old(self).config.runtime,
            ) && clash_unchanged(&final(self).config, &old(self).config) && verge_unchanged(
                &final(self).config,
                &old(self).config,
            ) && final(self).running == old(self).running,
    {
        match outcome {
            ValidationEvent::Passed => Ok(UpdateStep::Push),
            ValidationEvent::Failed(msg) => {
                self.config.runtime.discard();
                Ok(UpdateStep::Rejected(msg))
            },
            ValidationEvent::Errored(e) => {
                self.config.runtime.discard();
                Err(e)
            },
        }
    }

    /// A fresh failure counter for the push phase.
    pub fn new_push_tracker() -> (t: PushTracker)
        ensures
            t.failures == 0,
    {
        PushTracker { failures: 0 }
    }

    /// Handles one push attempt of the apply pipeline. The runtime draft is
    /// committed exactly when the push succeeded; a failure before the last
    /// attempt orders a bounded pause and a retry and mutates nothing; the
    /// last failure discards the runtime draft, so the committed value is
    /// never left half-applied.
    pub fn update_config_on_push(&mut self, tracker: &mut PushTracker, error: Option<String>) -> (d:
        PushDecision)
        requires
            old(tracker).failures < APPLY_MAX_ATTEMPTS,
        ensures
            error is None ==> d is Committed && final(self).config.runtime.draft is None && (
            doc_draft(&old(self).config.runtime) matches Some(doc) ==> doc_latest(
                &final(self).config.runtime,
            ) == doc) && (doc_draft(&old(self).config.runtime) is None ==> doc_latest(
                &final(self).config.runtime,
            ) == doc_latest(&old(self).config.runtime)) && clash_unchanged(
                &final(self).config,
                &old(self).config,
            ) && verge_unchanged(&final(self).config, &old(self).config) && final(self).running
                == old(self).running && final(tracker).failures == old(tracker).failures,
            error is Some && old(tracker).failures < APPLY_MAX_ATTEMPTS - 1 ==> (
            d matches PushDecision::Retry { pause_millis } && pause_millis
                == APPLY_RETRY_PAUSE_MILLIS) && manager_unchanged(final(self), old(self)) && final(tracker).failures == old(tracker).failures + 1,
            error matches Some(e) ==> (old(tracker).failures == APPLY_MAX_ATTEMPTS - 1 ==> (
            d matches PushDecision::Abandoned(m) && m@ == e@) && final(self).config.runtime.draft
                is None && doc_latest(&final(self).config.runtime) == doc_latest(
                &old(self).config.runtime,
            ) && clash_unchanged(&final(self).config, &old(self).config) && verge_unchanged(
                &final(self).config,
                &old(self).config,
            ) && final(self).running == old(self).running && final(tracker).failures == old(tracker).failures),
    {
        match error {
            None => {
                self.config.runtime.apply();
                PushDecision::Committed
            },
            Some(e) => {
                if tracker.failures < APPLY_MAX_ATTEMPTS - 1 {
                    tracker.failures = tracker.failures + 1;
                    PushDecision::Retry { pause_millis: APPLY_RETRY_PAUSE_MILLIS }
                } else {
                    self.config.runtime.discard();
                    PushDecision::Abandoned(e)
                }
            },
        }
    }
}

} // verus!
