//! The model of the versioned configuration stores: each domain keeps a
//! committed `latest` value and an optional uncommitted `draft`; `apply`
//! commits the draft and `discard` drops it, leaving `latest` untouched.
use vstd::prelude::*;
use vstd::string::*;

verus! {

/// Clones a list of strings, preserving its contents.
pub fn clone_string_vec(v: &Vec<String>) -> (r: Vec<String>)
    ensures
        r@.len() == v@.len(),
        forall|j: int| 0 <= j < v@.len() ==> r@[j]@ == v@[j]@,
{
    let mut r: Vec<String> = Vec::new();
    let mut i: usize = 0;
    while i < v.len()
        invariant
            i <= v@.len(),
            r@.len() == i,
            forall|j: int| 0 <= j < i ==> r@[j]@ == v@[j]@,
        decreases v@.len() - i,
    {
        r.push(v[i].clone());
        i += 1;
    }
    r
}

/// A versioned configuration document: the committed text and an optional
/// uncommitted working copy.
pub struct DocStore {
    pub latest: String,
    pub draft: Option<String>,
}

/// The committed text of a document store.
pub open spec fn doc_latest(s: &DocStore) -> Seq<char> {
    s.latest@
}

/// The draft of a document store, when one is pending.
pub open spec fn doc_draft(s: &DocStore) -> Option<Seq<char>> {
    match s.draft {
        Some(d) => Some(d@),
        None => None,
    }
}

impl DocStore {
    /// A store holding a committed value and no draft.
    pub fn new(latest: String) -> (s: Self)
        ensures
            doc_latest(&s) == latest@,
            s.draft is None,
    {
        DocStore { latest, draft: None }
    }

    /// Replaces the working copy; the committed value is untouched.
    pub fn set_draft(&mut self, value: String)
        ensures
            doc_latest(final(self)) == doc_latest(old(self)),
            doc_draft(final(self)) == Some(value@),
    {
        self.draft = Some(value);
    }

    /// Commits: the draft, when one is pending, becomes the committed value;
    /// afterwards no draft is pending.
    pub fn apply(&mut self)
        ensures
            final(self).draft is None,
            doc_draft(old(self)) matches Some(d) ==> doc_latest(final(self)) == d,
            doc_draft(old(self)) is None ==> doc_latest(final(self)) == doc_latest(old(self)),
    {
        let mut taken: Option<String> = None;
        std::mem::swap(&mut taken, &mut self.draft);
        match taken {
            Some(d) => {
                self.latest = d;
            },
            None => {},
        }
    }

    /// Drops the draft; the committed value is untouched.
    pub fn discard(&mut self)
        ensures
            final(self).draft is None,
            doc_latest(final(self)) == doc_latest(old(self)),
    {
        self.draft = None;
    }
}

/// The application settings the lifecycle manager reads: the selected engine
/// variant, whether global hotkeys are enabled, and the configured hotkey
/// bindings.
pub struct CoreSettings {
    pub clash_core: Option<String>,
    pub enable_global_hotkey: bool,
    pub hotkeys: Option<Vec<String>>,
}

/// The mathematical value of a settings record.
pub ghost struct CoreSettingsV {
    pub clash_core: Option<Seq<char>>,
    pub enable_global_hotkey: bool,
    pub hotkeys: Option<Seq<Seq<char>>>,
}

impl View for CoreSettings {
    type V = CoreSettingsV;

    open spec fn view(&self) -> CoreSettingsV {
        CoreSettingsV {
            clash_core: match self.clash_core {
                Some(c) => Some(c@),
                None => None,
            },
            enable_global_hotkey: self.enable_global_hotkey,
            hotkeys: match self.hotkeys {
                Some(h) => Some(h.deep_view()),
                None => None,
            },
        }
    }
}

impl CoreSettings {
    /// A copy with the same value.
    pub fn duplicate(&self) -> (r: Self)
        ensures
            r@ == self@,
    {
        let clash_core = match &self.clash_core {
            Some(c) => Some(c.clone()),
            None => None,
        };
        let hotkeys = match &self.hotkeys {
            Some(h) => {
                let h2 = clone_string_vec(h);
                assert(h2.deep_view() =~~= h.deep_view());
                Some(h2)
            },
            None => None,
        };
        let r = CoreSettings { clash_core, hotkeys, enable_global_hotkey: self.enable_global_hotkey };
        assert(r@ == self@) by {
            assert(r@.clash_core == self@.clash_core);
            assert(r@.hotkeys == self@.hotkeys);
        }
        r
    }
}

/// The versioned application-settings store.
pub struct SettingsStore {
    pub latest: CoreSettings,
    pub draft: Option<CoreSettings>,
}

/// The committed settings value.
pub open spec fn settings_latest(s: &SettingsStore) -> CoreSettingsV {
    s.latest@
}

/// The pending settings draft, when one exists.
pub open spec fn settings_draft(s: &SettingsStore) -> Option<CoreSettingsV> {
    match s.draft {
        Some(d) => Some(d@),
        None => None,
    }
}

/// The value a new draft starts from: the pending draft when one exists,
/// the committed value otherwise.
pub open spec fn settings_draft_base(s: &SettingsStore) -> CoreSettingsV {
    match s.draft {
        Some(d) => d@,
        None => s.latest@,
    }
}

impl SettingsStore {
    /// A store holding committed settings and no draft.
    pub fn new(latest: CoreSettings) -> (s: Self)
        ensures
            settings_latest(&s) == latest@,
            s.draft is None,
    {
        SettingsStore { latest, draft: None }
    }

    /// Writes the selected engine variant into the working copy, starting a
    /// draft from the committed settings when none is pending. Everything
    /// else in the draft keeps its value.
    pub fn draft_set_core(&mut self, core: String)
        ensures
            settings_latest(final(self)) == settings_latest(old(self)),
            settings_draft(final(self)) matches Some(d) && d == (CoreSettingsV {
                clash_core: Some(core@),
                ..settings_draft_base(old(self))
            }),
    {
        let mut base = match &self.draft {
            Some(d) => d.duplicate(),
            None => self.latest.duplicate(),
        };
        base.clash_core = Some(core);
        self.draft = Some(base);
    }

    /// Commits: the draft, when one is pending, becomes the committed value;
    /// afterwards no draft is pending.
    pub fn apply(&mut self)
        ensures
            final(self).draft is None,
            settings_draft(old(self)) matches Some(d) ==> settings_latest(final(self)) == d,
            settings_draft(old(self)) is None ==> settings_latest(final(self)) == settings_latest(
                old(self),
            ),
    {
        let mut taken: Option<CoreSettings> = None;
        std::mem::swap(&mut taken, &mut self.draft);
        match taken {
            Some(d) => {
                self.latest = d;
            },
            None => {},
        }
    }

    /// Drops the draft; the committed settings are untouched.
    pub fn discard(&mut self)
        ensures
            final(self).draft is None,
            settings_latest(final(self)) == settings_latest(old(self)),
    {
        self.draft = None;
    }
}

/// The three independently versioned configuration domains: the engine-facing
/// document, the application settings, and the merged runtime document.
pub struct ConfigState {
    pub clash: DocStore,
    pub verge: SettingsStore,
    pub runtime: DocStore,
}

/// The two stores not named are unchanged between two states.
pub open spec fn clash_unchanged(a: &ConfigState, b: &ConfigState) -> bool {
    &&& doc_latest(&a.clash) == doc_latest(&b.clash)
    &&& doc_draft(&a.clash) == doc_draft(&b.clash)
}

/// The runtime store is unchanged between two states.
pub open spec fn runtime_unchanged(a: &ConfigState, b: &ConfigState) -> bool {
    &&& doc_latest(&a.runtime) == doc_latest(&b.runtime)
    &&& doc_draft(&a.runtime) == doc_draft(&b.runtime)
}

/// The settings store is unchanged between two states.
pub open spec fn verge_unchanged(a: &ConfigState, b: &ConfigState) -> bool {
    &&& settings_latest(&a.verge) == settings_latest(&b.verge)
    &&& settings_draft(&a.verge) == settings_draft(&b.verge)
}

/// Nothing in the configuration state changed.
pub open spec fn config_unchanged(a: &ConfigState, b: &ConfigState) -> bool {
    &&& clash_unchanged(a, b)
    &&& runtime_unchanged(a, b)
    &&& verge_unchanged(a, b)
}

} // verus!
