//! Hotkey bindings: parsing `func,key` entries, the closed set of named
//! actions a key may be bound to, and the reconciliation that computes which
//! bindings to unregister and which to register when the configured list
//! changes. The OS-level registration itself is the caller's work.
use vstd::prelude::*;
use vstd::string::*;
use crate::config::clone_string_vec;
use crate::text::{chars_of, str_eq};

verus! {

/// The views of a list of strings.
pub open spec fn str_views(v: Seq<String>) -> Seq<Seq<char>> {
    v.map_values(|s: String| s@)
}

/// The views of a list of string pairs.
pub open spec fn pair_views(v: Seq<(String, String)>) -> Seq<(Seq<char>, Seq<char>)> {
    v.map_values(|p: (String, String)| (p.0@, p.1@))
}

/// The index of the first comma of a text, or a negative value when it has
/// none.
pub open spec fn first_comma(s: Seq<char>) -> int
    decreases s.len(),
{
    if s.len() == 0 {
        -1
    } else if s[0] == ',' {
        0
    } else {
        let r = first_comma(s.skip(1));
        if r < 0 {
            -1
        } else {
            1 + r
        }
    }
}

/// A text with no comma before position `j`.
pub open spec fn comma_free(s: Seq<char>, j: int) -> bool {
    forall|k: int| 0 <= k < j ==> s[k] != ','
}

/// A comma at the first comma-free position is the first comma.
pub proof fn lemma_first_comma_found(s: Seq<char>, j: int)
    requires
        0 <= j < s.len(),
        comma_free(s, j),
        s[j] == ',',
    ensures
        first_comma(s) == j,
    decreases j,
{
    if j > 0 {
        assert(forall|k: int| 0 <= k < j - 1 ==> s.skip(1)[k] == s[k + 1]);
        lemma_first_comma_found(s.skip(1), j - 1);
    }
}

/// A text that is comma-free throughout has no first comma.
pub proof fn lemma_first_comma_none(s: Seq<char>)
    requires
        comma_free(s, s.len() as int),
    ensures
        first_comma(s) < 0,
    decreases s.len(),
{
    if s.len() > 0 {
        assert(forall|k: int| 0 <= k < s.skip(1).len() ==> s.skip(1)[k] == s[k + 1]);
        lemma_first_comma_none(s.skip(1));
    }
}

/// Finds the first comma at or after `from`, as an absolute index.
fn find_comma_from(v: &Vec<char>, from: usize) -> (r: Option<usize>)
    requires
        from <= v@.len(),
    ensures
        r matches Some(j) ==> from <= j < v@.len() && first_comma(v@.skip(from as int)) == j - from,
        r is None ==> first_comma(v@.skip(from as int)) < 0,
{
    let mut i: usize = from;
    while i < v.len()
        invariant
            from <= i <= v@.len(),
            forall|k: int| from <= k < i ==> v@[k] != ',',
        decreases v@.len() - i,
    {
        if v[i] == ',' {
            proof {
                let rest = v@.skip(from as int);
                assert(forall|k: int| 0 <= k < i - from ==> rest[k] == v@[k + from]);
                assert(rest[i - from] == v@[i as int]);
                lemma_first_comma_found(rest, i - from);
            }
            return Some(i);
        }
        i += 1;
    }
    proof {
        let rest = v@.skip(from as int);
        assert(forall|k: int| 0 <= k < rest.len() ==> rest[k] == v@[k + from]);
        lemma_first_comma_none(rest);
    }
    None
}

/// The first segment of a binding entry: the action name before the first
/// comma.
pub open spec fn binding_func(s: Seq<char>) -> Seq<char> {
    s.subrange(0, first_comma(s))
}

/// The second segment of a binding entry: the key text between the first
/// comma and the second one, or the rest of the entry.
pub open spec fn binding_key(s: Seq<char>) -> Seq<char> {
    let rest = s.skip(first_comma(s) + 1);
    let c2 = first_comma(rest);
    if c2 < 0 {
        rest
    } else {
        rest.subrange(0, c2)
    }
}

/// Splits a binding entry at its commas into the action name and the key,
/// untrimmed; an entry without a comma has no key and yields nothing.
pub fn parse_binding(s: &str) -> (r: Option<(String, String)>)
    ensures
        r is None <==> first_comma(s@) < 0,
        r matches Some((func, key)) ==> func@ == binding_func(s@) && key@ == binding_key(s@),
{
    let v = chars_of(s);
    let n = v.len();
    assert(v@.skip(0) =~= v@);
    let c1 = match find_comma_from(&v, 0) {
        None => {
            return None;
        },
        Some(c1) => c1,
    };
    let func = String::from_str(s.substring_char(0, c1));
    assert(c1 < n);
    let key = match find_comma_from(&v, c1 + 1) {
        None => {
            let k = String::from_str(s.substring_char(c1 + 1, s.unicode_len()));
            assert(k@ =~= s@.skip(c1 + 1));
            k
        },
        Some(c2) => {
            let k = String::from_str(s.substring_char(c1 + 1, c2));
            assert(k@ =~= s@.skip(c1 + 1).subrange(0, c2 - (c1 + 1)));
            k
        },
    };
    Some((func, key))
}

/// The characters the binding parser strips from the ends of a segment:
/// ASCII whitespace.
pub open spec fn is_space(c: char) -> bool {
    c == ' ' || c == '\t' || c == '\n' || c == '\r' || c == '\u{000B}' || c == '\u{000C}'
}

/// The text with its leading whitespace removed.
pub open spec fn trim_start_spec(s: Seq<char>) -> Seq<char>
    decreases s.len(),
{
    if s.len() > 0 && is_space(s[0]) {
        trim_start_spec(s.skip(1))
    } else {
        s
    }
}

/// The text with its trailing whitespace removed.
pub open spec fn trim_end_spec(s: Seq<char>) -> Seq<char>
    decreases s.len(),
{
    if s.len() > 0 && is_space(s.last()) {
        trim_end_spec(s.take(s.len() - 1))
    } else {
        s
    }
}

/// The text with whitespace removed from both ends.
pub open spec fn trim_spec(s: Seq<char>) -> Seq<char> {
    trim_end_spec(trim_start_spec(s))
}

/// Whether a character is stripped by trimming.
fn is_space_char(c: char) -> (r: bool)
    ensures
        r == is_space(c),
{
    c == ' ' || c == '\t' || c == '\n' || c == '\r' || c == '\u{000B}' || c == '\u{000C}'
}

/// Strips whitespace from both ends of a string.
pub fn trim_str(s: &str) -> (r: String)
    ensures
        r@ == trim_spec(s@),
{
    let v = chars_of(s);
    let n = v.len();
    let mut lo: usize = 0;
    assert(v@.skip(0) =~= v@);
    while lo < n && is_space_char(v[lo])
        invariant
            n == v@.len(),
            v@ == s@,
            lo <= n,
            trim_start_spec(s@) == trim_start_spec(s@.skip(lo as int)),
        decreases n - lo,
    {
        proof {
            let rest = s@.skip(lo as int);
            assert(rest[0] == s@[lo as int]);
            assert(rest.skip(1) =~= s@.skip(lo + 1));
        }
        lo += 1;
    }
    proof {
        let rest = s@.skip(lo as int);
        if lo < n {
            assert(rest[0] == s@[lo as int]);
        }
        assert(trim_start_spec(rest) == rest);
    }
    let mut hi: usize = n;
    assert(s@.skip(lo as int).take((hi - lo) as int) =~= s@.skip(lo as int));
    while hi > lo && is_space_char(v[hi - 1])
        invariant
            n == v@.len(),
            v@ == s@,
            lo <= hi <= n,
            trim_end_spec(s@.skip(lo as int)) == trim_end_spec(
                s@.skip(lo as int).take((hi - lo) as int),
            ),
        decreases hi,
    {
        proof {
            let part = s@.skip(lo as int).take((hi - lo) as int);
            assert(part.last() == s@[hi - 1]);
            assert(part.take(part.len() - 1) =~= s@.skip(lo as int).take((hi - 1 - lo) as int));
        }
        hi -= 1;
    }
    proof {
        let part = s@.skip(lo as int).take((hi - lo) as int);
        if hi > lo {
            assert(part.last() == s@[hi - 1]);
        }
        assert(trim_end_spec(part) == part);
    }
    let r = String::from_str(s.substring_char(lo, hi));
    assert(r@ =~= s@.skip(lo as int).take((hi - lo) as int));
    r
}

/// The closed set of actions a hotkey may be bound to.
#[derive(Clone, Copy, Debug, PartialEq, Eq, Structural)]
pub enum HotkeyAction {
    OpenOrCloseDashboard,
    ClashModeRule,
    ClashModeGlobal,
    ClashModeDirect,
    ToggleSystemProxy,
    ToggleTunMode,
    Quit,
}

/// The action a trimmed name denotes, when it is one of the closed set.
pub open spec fn action_of(name: Seq<char>) -> Option<HotkeyAction> {
    if name == "open_or_close_dashboard"@ {
        Some(HotkeyAction::OpenOrCloseDashboard)
    } else if name == "clash_mode_rule"@ {
        Some(HotkeyAction::ClashModeRule)
    } else if name == "clash_mode_global"@ {
        Some(HotkeyAction::ClashModeGlobal)
    } else if name == "clash_mode_direct"@ {
        Some(HotkeyAction::ClashModeDirect)
    } else if name == "toggle_system_proxy"@ {
        Some(HotkeyAction::ToggleSystemProxy)
    } else if name == "toggle_tun_mode"@ {
        Some(HotkeyAction::ToggleTunMode)
    } else if name == "quit"@ {
        Some(HotkeyAction::Quit)
    } else {
        None
    }
}

/// Resolves an action name, trimming it first; an unknown name is rejected
/// rather than dispatched.
pub fn parse_action(func: &str) -> (r: Option<HotkeyAction>)
    ensures
        r == action_of(trim_spec(func@)),
{
    let t = trim_str(func);
    let name = t.as_str();
    if str_eq(name, "open_or_close_dashboard") {
        Some(HotkeyAction::OpenOrCloseDashboard)
    } else if str_eq(name, "clash_mode_rule") {
        Some(HotkeyAction::ClashModeRule)
    } else if str_eq(name, "clash_mode_global") {
        Some(HotkeyAction::ClashModeGlobal)
    } else if str_eq(name, "clash_mode_direct") {
        Some(HotkeyAction::ClashModeDirect)
    } else if str_eq(name, "toggle_system_proxy") {
        Some(HotkeyAction::ToggleSystemProxy)
    } else if str_eq(name, "toggle_tun_mode") {
        Some(HotkeyAction::ToggleTunMode)
    } else if str_eq(name, "quit") {
        Some(HotkeyAction::Quit)
    } else {
        None
    }
}

/// The key-to-action map of a binding list, as an association list folded
/// into a map: a later entry for the same key wins.
pub open spec fn assoc_map(pairs: Seq<(Seq<char>, Seq<char>)>) -> Map<Seq<char>, Seq<char>>
    decreases pairs.len(),
{
    if pairs.len() == 0 {
        Map::empty()
    } else {
        assoc_map(pairs.drop_last()).insert(pairs.last().0, pairs.last().1)
    }
}

/// The `(key, action)` pairs of a binding list, trimmed, in order; entries
/// without a key are dropped.
pub open spec fn binding_pairs(entries: Seq<Seq<char>>) -> Seq<(Seq<char>, Seq<char>)>
    decreases entries.len(),
{
    if entries.len() == 0 {
        Seq::empty()
    } else {
        let rest = binding_pairs(entries.drop_last());
        let e = entries.last();
        if first_comma(e) >= 0 {
            rest.push((trim_spec(binding_key(e)), trim_spec(binding_func(e))))
        } else {
            rest
        }
    }
}

/// The `(key, action)` pairs a fresh initialization registers, untrimmed, in
/// order.
pub open spec fn init_reg_list(entries: Seq<Seq<char>>) -> Seq<(Seq<char>, Seq<char>)>
    decreases entries.len(),
{
    if entries.len() == 0 {
        Seq::empty()
    } else {
        let rest = init_reg_list(entries.drop_last());
        let e = entries.last();
        if first_comma(e) >= 0 {
            rest.push((binding_key(e), binding_func(e)))
        } else {
            rest
        }
    }
}

/// The keys to unregister when moving from `old` to the map of the new list:
/// keys that are gone, and keys whose action changed.
pub open spec fn del_list(old: Seq<(Seq<char>, Seq<char>)>, newm: Map<Seq<char>, Seq<char>>) -> Seq<
    Seq<char>,
>
    decreases old.len(),
{
    if old.len() == 0 {
        Seq::empty()
    } else {
        let rest = del_list(old.drop_last(), newm);
        let p = old.last();
        if !newm.contains_key(p.0) || newm[p.0] != p.1 {
            rest.push(p.0)
        } else {
            rest
        }
    }
}

/// The re-registrations for keys whose action changed.
pub open spec fn add_changed(old: Seq<(Seq<char>, Seq<char>)>, newm: Map<Seq<char>, Seq<char>>) -> Seq<
    (Seq<char>, Seq<char>),
>
    decreases old.len(),
{
    if old.len() == 0 {
        Seq::empty()
    } else {
        let rest = add_changed(old.drop_last(), newm);
        let p = old.last();
        if newm.contains_key(p.0) && newm[p.0] != p.1 {
            rest.push((p.0, newm[p.0]))
        } else {
            rest
        }
    }
}

/// The registrations for keys that are new.
pub open spec fn add_fresh(new: Seq<(Seq<char>, Seq<char>)>, oldm: Map<Seq<char>, Seq<char>>) -> Seq<
    (Seq<char>, Seq<char>),
>
    decreases new.len(),
{
    if new.len() == 0 {
        Seq::empty()
    } else {
        let rest = add_fresh(new.drop_last(), oldm);
        let p = new.last();
        if !oldm.contains_key(p.0) {
            rest.push(p)
        } else {
            rest
        }
    }
}

/// Everything to register when moving between two binding lists.
pub open spec fn add_list(old: Seq<(Seq<char>, Seq<char>)>, new: Seq<(Seq<char>, Seq<char>)>) -> Seq<
    (Seq<char>, Seq<char>),
>
    {
    add_changed(old, assoc_map(new)) + add_fresh(new, assoc_map(old))
}

/// Looks a key up among the first `i` pairs; the last entry wins, as in the
/// folded map.
fn assoc_get_upto(m: &Vec<(String, String)>, key: &str, i: usize) -> (r: Option<String>)
    requires
        i <= m@.len(),
    ensures
        ({
            let mp = assoc_map(pair_views(m@).take(i as int));
            &&& (r is Some <==> mp.contains_key(key@))
            &&& (r matches Some(f) ==> mp.contains_key(key@) && f@ == mp[key@])
        }),
    decreases i,
{
    if i == 0 {
        assert(pair_views(m@).take(0) =~= Seq::<(Seq<char>, Seq<char>)>::empty());
        None
    } else {
        proof {
            assert(pair_views(m@).take(i as int).drop_last() =~= pair_views(m@).take(i - 1));
            assert(pair_views(m@).take(i as int).last() == (m@[i - 1].0@, m@[i - 1].1@));
        }
        let hit = str_eq(m[i - 1].0.as_str(), key);
        if hit {
            Some(m[i - 1].1.clone())
        } else {
            assoc_get_upto(m, key, i - 1)
        }
    }
}

/// Looks a key up in a binding map.
fn assoc_get(m: &Vec<(String, String)>, key: &str) -> (r: Option<String>)
    ensures
        ({
            let mp = assoc_map(pair_views(m@));
            &&& (r is Some <==> mp.contains_key(key@))
            &&& (r matches Some(f) ==> mp.contains_key(key@) && f@ == mp[key@])
        }),
{
    let r = assoc_get_upto(m, key, m.len());
    assert(pair_views(m@).take(m@.len() as int) =~= pair_views(m@));
    r
}

/// The hotkey reconciler: the currently registered binding list, and whether
/// initialization has run.
pub struct Hotkey {
    pub current: Vec<String>,
    pub initialized: bool,
}

impl Hotkey {
    /// A reconciler with no bindings registered.
    pub fn new() -> (h: Self)
        ensures
            h.current@.len() == 0,
            !h.initialized,
    {
        Hotkey { current: Vec::new(), initialized: false }
    }

    /// Builds the key-to-action map of a binding list: both segments trimmed,
    /// entries without a key dropped, in order, so a later entry for the same
    /// key wins in the folded map.
    pub fn get_map_from_vec(hotkeys: &Vec<String>) -> (m: Vec<(String, String)>)
        ensures
            pair_views(m@) == binding_pairs(str_views(hotkeys@)),
    {
        let mut m: Vec<(String, String)> = Vec::new();
        let mut i: usize = 0;
        assert(pair_views(m@) =~= binding_pairs(str_views(hotkeys@).take(0)));
        while i < hotkeys.len()
            invariant
                i <= hotkeys@.len(),
                pair_views(m@) == binding_pairs(str_views(hotkeys@).take(i as int)),
            decreases hotkeys@.len() - i,
        {
            proof {
                assert(str_views(hotkeys@).take(i + 1).drop_last() =~= str_views(hotkeys@).take(
                    i as int,
                ));
                assert(str_views(hotkeys@).take(i + 1).last() == hotkeys@[i as int]@);
            }
            match parse_binding(hotkeys[i].as_str()) {
                Some((func, key)) => {
                    let kt = trim_str(key.as_str());
                    let ft = trim_str(func.as_str());
                    m.push((kt, ft));
                    assert(pair_views(m@) =~= binding_pairs(str_views(hotkeys@).take(i + 1)));
                },
                None => {
                    assert(pair_views(m@) =~= binding_pairs(str_views(hotkeys@).take(i + 1)));
                },
            }
            i += 1;
        }
        assert(str_views(hotkeys@).take(hotkeys@.len() as int) =~= str_views(hotkeys@));
        m
    }

    /// Computes the reconciliation between two binding maps: the keys to
    /// unregister, and the `(key, action)` pairs to register.
    pub fn get_diff(old_map: &Vec<(String, String)>, new_map: &Vec<(String, String)>) -> (r: (
        Vec<String>,
        Vec<(String, String)>,
    ))
        ensures
            str_views(r.0@) == del_list(pair_views(old_map@), assoc_map(pair_views(new_map@))),
            pair_views(r.1@) == add_list(pair_views(old_map@), pair_views(new_map@)),
    {
        let mut del: Vec<String> = Vec::new();
        let mut add: Vec<(String, String)> = Vec::new();
        let ghost newm = assoc_map(pair_views(new_map@));
        let ghost oldm = assoc_map(pair_views(old_map@));
        let mut i: usize = 0;
        assert(str_views(del@) =~= del_list(pair_views(old_map@).take(0), newm));
        assert(pair_views(add@) =~= add_changed(pair_views(old_map@).take(0), newm));
        while i < old_map.len()
            invariant
                i <= old_map@.len(),
                newm == assoc_map(pair_views(new_map@)),
                str_views(del@) == del_list(pair_views(old_map@).take(i as int), newm),
                pair_views(add@) == add_changed(pair_views(old_map@).take(i as int), newm),
            decreases old_map@.len() - i,
        {
            proof {
                assert(pair_views(old_map@).take(i + 1).drop_last() =~= pair_views(
                    old_map@,
                ).take(i as int));
                assert(pair_views(old_map@).take(i + 1).last() == (
                    old_map@[i as int].0@,
                    old_map@[i as int].1@,
                ));
            }
            match assoc_get(new_map, old_map[i].0.as_str()) {
                Some(new_func) => {
                    let same = str_eq(new_func.as_str(), old_map[i].1.as_str());
                    if !same {
                        del.push(old_map[i].0.clone());
                        add.push((old_map[i].0.clone(), new_func));
                    }
                },
                None => {
                    del.push(old_map[i].0.clone());
                },
            }
            assert(str_views(del@) =~= del_list(pair_views(old_map@).take(i + 1), newm));
            assert(pair_views(add@) =~= add_changed(pair_views(old_map@).take(i + 1), newm));
            i += 1;
        }
        assert(pair_views(old_map@).take(old_map@.len() as int) =~= pair_views(old_map@));
        let ghost changed = pair_views(add@);
        let mut j: usize = 0;
        assert(pair_views(add@) =~= changed + add_fresh(pair_views(new_map@).take(0), oldm));
        while j < new_map.len()
            invariant
                j <= new_map@.len(),
                oldm == assoc_map(pair_views(old_map@)),
                str_views(del@) == del_list(pair_views(old_map@), newm),
                newm == assoc_map(pair_views(new_map@)),
                changed == add_changed(pair_views(old_map@), newm),
                pair_views(add@) == changed + add_fresh(pair_views(new_map@).take(j as int), oldm),
            decreases new_map@.len() - j,
        {
            proof {
                assert(pair_views(new_map@).take(j + 1).drop_last() =~= pair_views(
                    new_map@,
                ).take(j as int));
                assert(pair_views(new_map@).take(j + 1).last() == (
                    new_map@[j as int].0@,
                    new_map@[j as int].1@,
                ));
            }
            match assoc_get(old_map, new_map[j].0.as_str()) {
                Some(_) => {
                    assert(pair_views(add@) =~= changed + add_fresh(
                        pair_views(new_map@).take(j + 1),
                        oldm,
                    ));
                },
                None => {
                    let ghost pre = add@;
                    add.push((new_map[j].0.clone(), new_map[j].1.clone()));
                    proof {
                        let p = (new_map@[j as int].0@, new_map@[j as int].1@);
                        assert(pair_views(add@) =~= pair_views(pre).push(p));
                        assert(add_fresh(pair_views(new_map@).take(j + 1), oldm) == add_fresh(
                            pair_views(new_map@).take(j as int),
                            oldm,
                        ).push(p));
                        assert(pair_views(add@) =~= changed + add_fresh(
                            pair_views(new_map@).take(j + 1),
                            oldm,
                        ));
                    }
                },
            }
            j += 1;
        }
        assert(pair_views(new_map@).take(new_map@.len() as int) =~= pair_views(new_map@));
        (del, add)
    }

    /// First-time setup: marks the reconciler initialized and, when global
    /// hotkeys are enabled and a binding list is configured, returns the
    /// `(key, action)` pairs to register — in order, untrimmed, skipping
    /// entries without a key — and remembers the list. A second call does
    /// nothing.
    pub fn init(&mut self, enable_global_hotkey: bool, hotkeys: Option<&Vec<String>>) -> (regs: Vec<
        (String, String),
    >)
        ensures
            final(self).initialized,
            old(self).initialized ==> regs@.len() == 0 && final(self).current == old(self).current,
            !old(self).initialized && !enable_global_hotkey ==> regs@.len() == 0 && final(self).current == old(self).current,
            !old(self).initialized && enable_global_hotkey && hotkeys is None ==> regs@.len() == 0
                && final(self).current == old(self).current,
            !old(self).initialized && enable_global_hotkey ==> (hotkeys matches Some(h) ==> (
            pair_views(regs@) == init_reg_list(str_views(h@)) && str_views(final(self).current@)
                == str_views(h@))),
    {
        if self.initialized {
            return Vec::new();
        }
        self.initialized = true;
        if !enable_global_hotkey {
            return Vec::new();
        }
        match hotkeys {
            None => Vec::new(),
            Some(h) => {
                let mut regs: Vec<(String, String)> = Vec::new();
                let mut i: usize = 0;
                assert(pair_views(regs@) =~= init_reg_list(str_views(h@).take(0)));
                while i < h.len()
                    invariant
                        i <= h@.len(),
                        pair_views(regs@) == init_reg_list(str_views(h@).take(i as int)),
                    decreases h@.len() - i,
                {
                    proof {
                        assert(str_views(h@).take(i + 1).drop_last() =~= str_views(h@).take(
                            i as int,
                        ));
                        assert(str_views(h@).take(i + 1).last() == h@[i as int]@);
                    }
                    match parse_binding(h[i].as_str()) {
                        Some((func, key)) => {
                            regs.push((key, func));
                            assert(pair_views(regs@) =~= init_reg_list(str_views(h@).take(i + 1)));
                        },
                        None => {
                            assert(pair_views(regs@) =~= init_reg_list(str_views(h@).take(i + 1)));
                        },
                    }
                    i += 1;
                }
                assert(str_views(h@).take(h@.len() as int) =~= str_views(h@));
                let copy = clone_string_vec(h);
                assert(str_views(copy@) =~= str_views(h@));
                self.current = copy;
                regs
            },
        }
    }

    /// Allows initialization to run again; the remembered list is kept, as
    /// the caller unregisters everything at the OS level in one call.
    pub fn reset(&mut self)
        ensures
            !final(self).initialized,
            final(self).current == old(self).current,
    {
        self.initialized = false;
    }

    /// Reconciles against a new binding list: computes what to unregister
    /// and what to register, and remembers the new list.
    pub fn update(&mut self, new_hotkeys: Vec<String>) -> (r: (Vec<String>, Vec<(String, String)>))
        ensures
            final(self).current == new_hotkeys,
            final(self).initialized == old(self).initialized,
            str_views(r.0@) == del_list(
                binding_pairs(str_views(old(self).current@)),
                assoc_map(binding_pairs(str_views(new_hotkeys@))),
            ),
            pair_views(r.1@) == add_list(
                binding_pairs(str_views(old(self).current@)),
                binding_pairs(str_views(new_hotkeys@)),
            ),
    {
        let old_map = Self::get_map_from_vec(&self.current);
        let new_map = Self::get_map_from_vec(&new_hotkeys);
        let r = Self::get_diff(&old_map, &new_map);
        self.current = new_hotkeys;
        r
    }
}

} // verus!
