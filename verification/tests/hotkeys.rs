use verge_core::hotkey::{parse_action, parse_binding, trim_str, Hotkey, HotkeyAction};

#[test]
fn parse_binding_splits_at_commas() {
    let r = parse_binding("toggle_tun_mode,ctrl+t");
    assert_eq!(r, Some((String::from("toggle_tun_mode"), String::from("ctrl+t"))));
    let r = parse_binding("quit, cmd+q ,extra");
    assert_eq!(r, Some((String::from("quit"), String::from(" cmd+q "))));
    assert_eq!(parse_binding("no-comma-here"), None);
    assert_eq!(parse_binding(",k"), Some((String::from(""), String::from("k"))));
}

#[test]
fn trim_strips_ascii_whitespace() {
    assert_eq!(trim_str("  quit \t"), "quit");
    assert_eq!(trim_str(""), "");
    assert_eq!(trim_str(" \t "), "");
    assert_eq!(trim_str("a b"), "a b");
}

#[test]
fn parse_action_accepts_the_closed_set_only() {
    assert!(matches!(parse_action("quit"), Some(HotkeyAction::Quit)));
    assert!(matches!(parse_action(" toggle_tun_mode "), Some(HotkeyAction::ToggleTunMode)));
    assert!(matches!(
        parse_action("open_or_close_dashboard"),
        Some(HotkeyAction::OpenOrCloseDashboard)
    ));
    assert!(matches!(parse_action("clash_mode_rule"), Some(HotkeyAction::ClashModeRule)));
    assert!(matches!(parse_action("clash_mode_global"), Some(HotkeyAction::ClashModeGlobal)));
    assert!(matches!(parse_action("clash_mode_direct"), Some(HotkeyAction::ClashModeDirect)));
    assert!(matches!(parse_action("toggle_system_proxy"), Some(HotkeyAction::ToggleSystemProxy)));
    assert_eq!(parse_action("rm -rf"), None);
    assert_eq!(parse_action(""), None);
}

#[test]
fn get_map_from_vec_trims_and_skips_invalid_entries() {
    let hotkeys = vec![
        String::from("toggle_tun_mode, ctrl+t "),
        String::from("invalid-entry"),
        String::from(" quit ,cmd+q"),
    ];
    let m = Hotkey::get_map_from_vec(&hotkeys);
    assert_eq!(
        m,
        vec![
            (String::from("ctrl+t"), String::from("toggle_tun_mode")),
            (String::from("cmd+q"), String::from("quit")),
        ]
    );
}

#[test]
fn get_diff_reports_removed_changed_and_added_keys() {
    let old_map = vec![
        (String::from("ctrl+t"), String::from("toggle_tun_mode")),
        (String::from("cmd+q"), String::from("quit")),
        (String::from("ctrl+d"), String::from("open_or_close_dashboard")),
    ];
    let new_map = vec![
        (String::from("ctrl+t"), String::from("toggle_system_proxy")),
        (String::from("ctrl+d"), String::from("open_or_close_dashboard")),
        (String::from("ctrl+g"), String::from("clash_mode_global")),
    ];
    let (del, add) = Hotkey::get_diff(&old_map, &new_map);
    assert_eq!(del, vec![String::from("ctrl+t"), String::from("cmd+q")]);
    assert_eq!(
        add,
        vec![
            (String::from("ctrl+t"), String::from("toggle_system_proxy")),
            (String::from("ctrl+g"), String::from("clash_mode_global")),
        ]
    );
}

#[test]
fn init_registers_configured_bindings_once() {
    let mut h = Hotkey::new();
    let hotkeys = vec![String::from("quit,cmd+q"), String::from("broken")];
    let regs = h.init(true, Some(&hotkeys));
    assert_eq!(regs, vec![(String::from("cmd+q"), String::from("quit"))]);
    assert!(h.initialized);
    let regs = h.init(true, Some(&hotkeys));
    assert!(regs.is_empty(), "a second initialization does nothing");
}

#[test]
fn init_skips_registration_when_disabled_or_unconfigured() {
    let mut h = Hotkey::new();
    let hotkeys = vec![String::from("quit,cmd+q")];
    let regs = h.init(false, Some(&hotkeys));
    assert!(regs.is_empty());
    let mut h = Hotkey::new();
    let regs = h.init(true, None);
    assert!(regs.is_empty());
}

#[test]
fn reset_allows_initialization_again() {
    let mut h = Hotkey::new();
    let _ = h.init(true, None);
    assert!(h.initialized);
    h.reset();
    assert!(!h.initialized);
}

#[test]
fn update_reconciles_and_remembers_the_new_list() {
    let mut h = Hotkey::new();
    let _ = h.init(true, Some(&vec![String::from("quit,cmd+q")]));
    let (del, add) = h.update(vec![String::from("toggle_tun_mode,cmd+q")]);
    assert_eq!(del, vec![String::from("cmd+q")]);
    assert_eq!(add, vec![(String::from("cmd+q"), String::from("toggle_tun_mode"))]);
    assert_eq!(h.current, vec![String::from("toggle_tun_mode,cmd+q")]);
}
