use wmcore::actions::Effect;
use wmcore::errors::{ConfigError, SpawnError};
use wmcore::geometry::Region;
use wmcore::hooks::{hook_effect, run_hooks, Hook, HookEvent, HookRun, StartupScript};
use wmcore::scratchpad::{Scratchpad, ScratchpadState, ToggleRequest};

fn screen() -> Region {
    Region::new(0, 0, 1920, 1080)
}

#[test]
fn scratchpad_ratio_beyond_one_is_rejected() {
    let r = Scratchpad::new(String::from("alacritty"), 1200, 800);
    assert_eq!(r.unwrap_err(), ConfigError::InvalidRatio);
}

#[test]
fn toggle_sequence_spawns_exactly_once() {
    let mut sp = Scratchpad::new(String::from("alacritty"), 800, 800).unwrap();
    assert_eq!(sp.state, ScratchpadState::Uninitialized);

    // First toggle: Uninitialized -> Visible, one spawn request.
    let first = sp.toggle(&screen());
    assert_eq!(sp.state, ScratchpadState::Visible);
    match first {
        ToggleRequest::Spawn { program, region } => {
            assert_eq!(program, "alacritty");
            assert_eq!(region, Region::new(192, 108, 1536, 864));
        }
        other => panic!("first toggle must spawn, got {:?}", other),
    }
    sp.register_client(7);

    // Second toggle: Visible -> Hidden, no spawn.
    let second = sp.toggle(&screen());
    assert_eq!(sp.state, ScratchpadState::Hidden);
    assert!(matches!(second, ToggleRequest::Hide { client: Some(7) }));

    // Third toggle: Hidden -> Visible, still no spawn.
    let third = sp.toggle(&screen());
    assert_eq!(sp.state, ScratchpadState::Visible);
    match third {
        ToggleRequest::Show { client, region } => {
            assert_eq!(client, Some(7));
            assert_eq!(region, Region::new(192, 108, 1536, 864));
        }
        other => panic!("third toggle must show, got {:?}", other),
    }
}

#[test]
fn first_toggle_resolves_to_the_centered_fraction_of_the_screen() {
    let mut sp = Scratchpad::new(String::from("alacritty"), 800, 800).unwrap();
    match sp.toggle(&screen()) {
        ToggleRequest::Spawn { region, .. } => {
            assert_eq!(region.w, 1536);
            assert_eq!(region.h, 864);
            assert_eq!(region.x, 192);
            assert_eq!(region.y, 108);
        }
        other => panic!("first toggle must spawn, got {:?}", other),
    }
}

#[test]
fn spawn_failure_resets_and_surfaces_the_error() {
    let mut sp = Scratchpad::new(String::from("alacritty"), 800, 800).unwrap();
    let _ = sp.toggle(&screen());
    let e = sp.spawn_failed();
    assert_eq!(e, SpawnError::ScratchpadSpawnFailed);
    assert_eq!(sp.state, ScratchpadState::Uninitialized);
    // The next toggle spawns again.
    assert!(matches!(sp.toggle(&screen()), ToggleRequest::Spawn { .. }));
}

#[test]
fn external_destroy_resets_to_uninitialized() {
    let mut sp = Scratchpad::new(String::from("alacritty"), 800, 800).unwrap();
    let _ = sp.toggle(&screen());
    assert!(sp.register_client(9));
    sp.client_destroyed(9);
    assert_eq!(sp.state, ScratchpadState::Uninitialized);
    assert_eq!(sp.client, None);
    assert!(matches!(sp.toggle(&screen()), ToggleRequest::Spawn { .. }));
}

#[test]
fn destroy_of_an_unrelated_window_changes_nothing() {
    let mut sp = Scratchpad::new(String::from("alacritty"), 800, 800).unwrap();
    let _ = sp.toggle(&screen());
    assert!(sp.register_client(9));
    sp.client_destroyed(10);
    assert_eq!(sp.state, ScratchpadState::Visible);
    assert_eq!(sp.client, Some(9));
}

#[test]
fn scratchpad_claims_only_one_window() {
    let mut sp = Scratchpad::new(String::from("alacritty"), 800, 800).unwrap();
    let _ = sp.toggle(&screen());
    assert!(sp.register_client(9));
    assert!(!sp.register_client(10));
    assert_eq!(sp.client, Some(9));
}

#[test]
fn startup_script_spawns_through_the_shell() {
    let hook = Hook::Startup(StartupScript::new(String::from("~/scripts/launch_bar.sh")));
    let symbol = String::from("[side]");
    match hook_effect(&hook, HookEvent::Startup, &symbol) {
        Some(Effect::SpawnProcess { program, args }) => {
            assert_eq!(program, "sh");
            assert_eq!(args, vec![String::from("-c"), String::from("~/scripts/launch_bar.sh")]);
        }
        other => panic!("startup script must spawn at startup, got {:?}", other),
    }
    assert!(hook_effect(&hook, HookEvent::LayoutChange, &symbol).is_none());
}

#[test]
fn root_name_hook_follows_the_layout_symbol() {
    let hook = Hook::LayoutSymbolAsRootName;
    let symbol = String::from("[side]");
    match hook_effect(&hook, HookEvent::LayoutChange, &symbol) {
        Some(Effect::SetRootName(name)) => assert_eq!(name, "[side]"),
        other => panic!("root name hook must rename on layout change, got {:?}", other),
    }
    assert!(hook_effect(&hook, HookEvent::NewClient, &symbol).is_none());
}

#[test]
fn failing_hook_is_skipped_and_the_rest_still_run() {
    let hooks = vec![
        Hook::Startup(StartupScript::new(String::from("a.sh"))),
        Hook::Startup(StartupScript::new(String::from("b.sh"))),
        Hook::LayoutSymbolAsRootName,
    ];
    let symbol = String::from("[side]");
    let planned = run_hooks(&hooks, HookEvent::Startup, &symbol);
    // Every hook is consulted, in registration order.
    assert_eq!(planned.len(), 3);
    assert!(planned.iter().all(|e| e.is_some()));

    // Executing the plan: the second hook fails, the others succeed; the
    // cursor still reaches the end and the run itself never errors.
    let mut run = HookRun::new();
    run.record(true);
    run.record(false);
    run.record(true);
    assert_eq!(run.next, 3);
    assert_eq!(run.failed, vec![1usize]);
}
