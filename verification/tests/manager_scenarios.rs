use wmcore::actions::{Action, Direction, Effect};
use wmcore::bindings::{Bindings, IndexedAction};
use wmcore::errors::{ConfigError, DispatchError};
use wmcore::geometry::Region;
use wmcore::hooks::{Hook, HookEvent, StartupScript};
use wmcore::keys::{KeyCombo, MOD_META};
use wmcore::layout::{Layout, LayoutConf};
use wmcore::manager::{Config, WindowManager};
use wmcore::scratchpad::{Scratchpad, ScratchpadState};

// The key symbols the demo configuration uses for the digit row.
const DIGIT_KEYS: [u32; 9] = [0x31, 0x32, 0x33, 0x34, 0x35, 0x36, 0x37, 0x38, 0x39];

fn side_conf() -> LayoutConf {
    LayoutConf { follow_focus: true, gapless: true, border_px: 2, gap_px: 0 }
}

fn demo_config() -> Config {
    let names: Vec<String> =
        vec!["1", "2", "3", "4", "5", "6", "7", "8", "9"].into_iter().map(String::from).collect();
    let layouts = vec![Layout::new(String::from("[side]"), side_conf(), 1, 550).unwrap()];
    Config {
        workspace_names: names,
        layouts,
        floating_classes: vec![String::from("pinentry-gnome3"), String::from("dunst")],
        border_px: 2,
        focused_border: 0xfdfd96,
        gap_px: 0,
    }
}

fn demo_manager() -> WindowManager {
    let mut bindings = Bindings::new();
    let keys: Vec<u32> = DIGIT_KEYS.to_vec();
    bindings.register_indexed(MOD_META, &keys, IndexedAction::FocusWorkspace).unwrap();
    bindings.register(KeyCombo::new(MOD_META, 0x2f), Action::ToggleScratchpad).unwrap();
    let hooks = vec![
        Hook::LayoutSymbolAsRootName,
        Hook::Startup(StartupScript::new(String::from("~/scripts/launch_bar.sh"))),
    ];
    let sp = Scratchpad::new(String::from("alacritty"), 800, 800).unwrap();
    WindowManager::new(demo_config(), hooks, sp, bindings, Region::new(0, 0, 1920, 1080)).unwrap()
}

#[test]
fn empty_workspace_list_is_fatal() {
    let mut config = demo_config();
    config.workspace_names = Vec::new();
    let sp = Scratchpad::new(String::from("alacritty"), 800, 800).unwrap();
    let r = WindowManager::new(config, Vec::new(), sp, Bindings::new(), Region::new(0, 0, 1920, 1080));
    assert_eq!(r.unwrap_err(), ConfigError::NoWorkspaces);
}

#[test]
fn empty_layout_list_is_fatal() {
    let mut config = demo_config();
    config.layouts = Vec::new();
    let sp = Scratchpad::new(String::from("alacritty"), 800, 800).unwrap();
    let r = WindowManager::new(config, Vec::new(), sp, Bindings::new(), Region::new(0, 0, 1920, 1080));
    assert_eq!(r.unwrap_err(), ConfigError::NoLayouts);
}

#[test]
fn focusing_a_workspace_moves_focus_and_keeps_membership() {
    let mut wm = demo_manager();
    // Put one client on workspace "3" and one on "1".
    wm.dispatch(KeyCombo::new(MOD_META, DIGIT_KEYS[2])).unwrap();
    wm.client_created(100, String::from("firefox"));
    wm.dispatch(KeyCombo::new(MOD_META, DIGIT_KEYS[0])).unwrap();
    wm.client_created(200, String::from("emacs"));
    wm.dispatch(KeyCombo::new(MOD_META, DIGIT_KEYS[4])).unwrap();
    assert_eq!(wm.focused_ws, 4);

    // Dispatching M-1 focuses workspace "1" and no membership changes.
    let d = wm.dispatch(KeyCombo::new(MOD_META, DIGIT_KEYS[0])).unwrap();
    assert_eq!(wm.focused_ws, 0);
    assert_eq!(d.event, Some(HookEvent::WorkspaceChange));
    assert!(d.effects.is_empty());
    assert_eq!(wm.workspaces[0].clients.len(), 1);
    assert_eq!(wm.workspaces[0].clients[0].id, 200);
    assert_eq!(wm.workspaces[2].clients.len(), 1);
    assert_eq!(wm.workspaces[2].clients[0].id, 100);
    for w in [1usize, 3, 4, 5, 6, 7, 8] {
        assert!(wm.workspaces[w].clients.is_empty());
    }
}

#[test]
fn unknown_workspace_index_is_a_recoverable_error() {
    let mut wm = demo_manager();
    wm.bindings.register(KeyCombo::new(MOD_META, 0x63), Action::FocusWorkspace(42)).unwrap();
    let before = wm.focused_ws;
    let r = wm.dispatch(KeyCombo::new(MOD_META, 0x63));
    assert_eq!(r.unwrap_err(), DispatchError::NoSuchWorkspace);
    assert_eq!(wm.focused_ws, before);
}

#[test]
fn unbound_key_is_a_recoverable_error() {
    let mut wm = demo_manager();
    let r = wm.dispatch(KeyCombo::new(MOD_META, 0xffff));
    assert_eq!(r.unwrap_err(), DispatchError::UnboundKey);
}

#[test]
fn client_actions_need_a_focused_client() {
    let mut wm = demo_manager();
    wm.bindings.register(KeyCombo::new(MOD_META, 0x6a), Action::CycleClient(Direction::Forward)).unwrap();
    let r = wm.dispatch(KeyCombo::new(MOD_META, 0x6a));
    assert_eq!(r.unwrap_err(), DispatchError::NoFocusedClient);
}

#[test]
fn toggle_workspace_jumps_back_to_the_previous_one() {
    let mut wm = demo_manager();
    wm.bindings.register(KeyCombo::new(MOD_META, 0xff09), Action::ToggleWorkspace).unwrap();
    wm.dispatch(KeyCombo::new(MOD_META, DIGIT_KEYS[6])).unwrap();
    wm.dispatch(KeyCombo::new(MOD_META, DIGIT_KEYS[1])).unwrap();
    assert_eq!(wm.focused_ws, 1);
    wm.dispatch(KeyCombo::new(MOD_META, 0xff09)).unwrap();
    assert_eq!(wm.focused_ws, 6);
    wm.dispatch(KeyCombo::new(MOD_META, 0xff09)).unwrap();
    assert_eq!(wm.focused_ws, 1);
}

#[test]
fn cycle_workspace_wraps_around() {
    let mut wm = demo_manager();
    wm.bindings.register(KeyCombo::new(MOD_META, 0x2e), Action::CycleWorkspace(Direction::Backward)).unwrap();
    wm.dispatch(KeyCombo::new(MOD_META, 0x2e)).unwrap();
    assert_eq!(wm.focused_ws, 8);
}

#[test]
fn scratchpad_toggle_end_to_end_geometry() {
    let mut wm = demo_manager();
    let toggle = KeyCombo::new(MOD_META, 0x2f);

    // First toggle spawns the terminal.
    let d = wm.dispatch(toggle).unwrap();
    assert_eq!(d.effects.len(), 1);
    match &d.effects[0] {
        Effect::SpawnProcess { program, .. } => assert_eq!(program, "alacritty"),
        other => panic!("first toggle must spawn, got {:?}", other),
    }
    assert_eq!(wm.scratchpad.state, ScratchpadState::Visible);

    // Its window appears: claimed, floated, and centered at 0.8 x 0.8 of
    // 1920 x 1080 = 1536 x 864.
    let effects = wm.client_created(77, String::from("alacritty"));
    assert_eq!(effects.len(), 1);
    match &effects[0] {
        Effect::ApplyRegion { client, region } => {
            assert_eq!(*client, 77);
            assert_eq!(*region, Region::new(192, 108, 1536, 864));
        }
        other => panic!("the claimed window is centered, got {:?}", other),
    }
    assert!(wm.workspaces[0].clients[0].floating);

    // Second toggle hides it, third shows it again; no further spawns.
    let d2 = wm.dispatch(toggle).unwrap();
    assert!(matches!(d2.effects[0], Effect::UnmapClient(77)));
    let d3 = wm.dispatch(toggle).unwrap();
    assert!(matches!(d3.effects[0], Effect::MapClient(77)));
    assert!(matches!(
        d3.effects[1],
        Effect::ApplyRegion { client: 77, region: Region { x: 192, y: 108, w: 1536, h: 864 } }
    ));
}

#[test]
fn floating_class_bypasses_tiling() {
    let mut wm = demo_manager();
    wm.client_created(1, String::from("emacs"));
    wm.client_created(2, String::from("dunst"));
    wm.client_created(3, String::from("firefox"));
    assert!(!wm.workspaces[0].clients[0].floating);
    assert!(wm.workspaces[0].clients[1].floating);
    assert!(!wm.workspaces[0].clients[2].floating);

    // Only the two tiled clients are arranged; the layout follows focus, so
    // the focused client (the last created) takes the 1056-wide main column
    // and the other tiled client the stack column.
    let effects = wm.layout_effects();
    assert_eq!(effects.len(), 2);
    match &effects[0] {
        Effect::ApplyRegion { client, region } => {
            assert_eq!(*client, 3);
            assert_eq!(*region, Region::new(0, 0, 1056, 1080));
        }
        other => panic!("expected a geometry request, got {:?}", other),
    }
    match &effects[1] {
        Effect::ApplyRegion { client, region } => {
            assert_eq!(*client, 1);
            assert_eq!(*region, Region::new(1056, 0, 864, 1080));
        }
        other => panic!("expected a geometry request, got {:?}", other),
    }
}

#[test]
fn without_follow_focus_the_stack_order_decides_the_main_column() {
    let mut config = demo_config();
    let mut conf = side_conf();
    conf.follow_focus = false;
    config.layouts = vec![Layout::new(String::from("[side]"), conf, 1, 550).unwrap()];
    let sp = Scratchpad::new(String::from("alacritty"), 800, 800).unwrap();
    let mut wm =
        WindowManager::new(config, Vec::new(), sp, Bindings::new(), Region::new(0, 0, 1920, 1080))
            .unwrap();
    wm.client_created(1, String::from("emacs"));
    wm.client_created(3, String::from("firefox"));
    // Client 3 is focused, but the main column goes to the first of the
    // stack.
    let effects = wm.layout_effects();
    assert_eq!(effects.len(), 2);
    match &effects[0] {
        Effect::ApplyRegion { client, region } => {
            assert_eq!(*client, 1);
            assert_eq!(*region, Region::new(0, 0, 1056, 1080));
        }
        other => panic!("expected a geometry request, got {:?}", other),
    }
    match &effects[1] {
        Effect::ApplyRegion { client, .. } => assert_eq!(*client, 3),
        other => panic!("expected a geometry request, got {:?}", other),
    }
}

#[test]
fn destroyed_client_leaves_its_workspace() {
    let mut wm = demo_manager();
    wm.client_created(1, String::from("emacs"));
    wm.client_created(2, String::from("firefox"));
    wm.dispatch(KeyCombo::new(MOD_META, DIGIT_KEYS[3])).unwrap();
    wm.client_created(3, String::from("mpv"));
    wm.client_destroyed(1);
    assert_eq!(wm.workspaces[0].clients.len(), 1);
    assert_eq!(wm.workspaces[0].clients[0].id, 2);
    assert_eq!(wm.workspaces[3].clients.len(), 1);
}

#[test]
fn client_moves_to_another_workspace() {
    let mut wm = demo_manager();
    wm.bindings.register(KeyCombo::new(MOD_META, 0x73), Action::ClientToWorkspace(4)).unwrap();
    wm.client_created(11, String::from("emacs"));
    wm.client_created(12, String::from("firefox"));
    let d = wm.dispatch(KeyCombo::new(MOD_META, 0x73)).unwrap();
    assert!(matches!(d.effects[0], Effect::UnmapClient(12)));
    assert_eq!(wm.workspaces[0].clients.len(), 1);
    assert_eq!(wm.workspaces[0].clients[0].id, 11);
    assert_eq!(wm.workspaces[4].clients.len(), 1);
    assert_eq!(wm.workspaces[4].clients[0].id, 12);
}

#[test]
fn cycling_layouts_renames_the_root_window() {
    let mut config = demo_config();
    config.layouts.push(Layout::new(String::from("[mono]"), side_conf(), 0, 1000).unwrap());
    let mut bindings = Bindings::new();
    bindings.register(KeyCombo::new(MOD_META, 0x60), Action::CycleLayout(Direction::Forward)).unwrap();
    let sp = Scratchpad::new(String::from("alacritty"), 800, 800).unwrap();
    let hooks = vec![Hook::LayoutSymbolAsRootName];
    let mut wm =
        WindowManager::new(config, hooks, sp, bindings, Region::new(0, 0, 1920, 1080)).unwrap();

    let d = wm.dispatch(KeyCombo::new(MOD_META, 0x60)).unwrap();
    assert_eq!(d.event, Some(HookEvent::LayoutChange));
    let planned = wm.run_event_hooks(HookEvent::LayoutChange);
    assert_eq!(planned.len(), 1);
    match planned[0].as_ref().unwrap() {
        Effect::SetRootName(name) => assert_eq!(name, "[mono]"),
        other => panic!("expected a root rename, got {:?}", other),
    }
}

#[test]
fn fullscreen_toggle_flips_the_focused_client() {
    let mut wm = demo_manager();
    wm.bindings.register(KeyCombo::new(MOD_META, 0x6d), Action::ToggleClientFullscreen).unwrap();
    wm.client_created(5, String::from("mpv"));
    let d = wm.dispatch(KeyCombo::new(MOD_META, 0x6d)).unwrap();
    assert!(matches!(d.effects[0], Effect::SetFullscreen { client: 5, on: true }));
    assert!(wm.workspaces[0].clients[0].fullscreen);
    let d2 = wm.dispatch(KeyCombo::new(MOD_META, 0x6d)).unwrap();
    assert!(matches!(d2.effects[0], Effect::SetFullscreen { client: 5, on: false }));
    assert!(!wm.workspaces[0].clients[0].fullscreen);
}
