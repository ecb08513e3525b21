use wmcore::actions::{Action, Direction, Effect};
use wmcore::bindings::{Bindings, IndexedAction};
use wmcore::errors::{ConfigError, DispatchError};
use wmcore::keys::{KeyCombo, MOD_META, MOD_SHIFT};

fn combo(modifiers: u8, key: u32) -> KeyCombo {
    KeyCombo::new(modifiers, key)
}

#[test]
fn lookup_returns_exactly_the_registered_action() {
    let mut b = Bindings::new();
    let m_p = combo(MOD_META, 0x70);
    let m_s_ret = combo(MOD_META | MOD_SHIFT, 0xff0d);
    b.register(m_p, Action::Spawn(String::from("dmenu_run"))).unwrap();
    b.register(m_s_ret, Action::Spawn(String::from("alacritty"))).unwrap();
    match b.lookup(m_p).unwrap() {
        Action::Spawn(cmd) => assert_eq!(cmd, "dmenu_run"),
        other => panic!("wrong action bound: {:?}", other),
    }
    match b.lookup(m_s_ret).unwrap() {
        Action::Spawn(cmd) => assert_eq!(cmd, "alacritty"),
        other => panic!("wrong action bound: {:?}", other),
    }
}

#[test]
fn unbound_combination_is_an_error() {
    let b = Bindings::new();
    assert_eq!(b.lookup(combo(MOD_META, 1)).unwrap_err(), DispatchError::UnboundKey);
}

#[test]
fn duplicate_binding_rejected_and_first_kept() {
    let mut b = Bindings::new();
    let c = combo(MOD_META, 0x6a);
    b.register(c, Action::CycleClient(Direction::Forward)).unwrap();
    let second = b.register(c, Action::KillClient);
    assert_eq!(second.unwrap_err(), ConfigError::DuplicateBinding);
    assert_eq!(b.binds.len(), 1);
    assert!(matches!(
        b.lookup(c).unwrap(),
        Action::CycleClient(Direction::Forward)
    ));
}

#[test]
fn templated_group_expands_to_one_binding_per_index() {
    let mut b = Bindings::new();
    let keys: Vec<u32> = vec![0x31, 0x32, 0x33, 0x34];
    b.register_indexed(MOD_META, &keys, IndexedAction::FocusWorkspace).unwrap();
    assert_eq!(b.binds.len(), 4);
    for (i, k) in keys.iter().enumerate() {
        match b.lookup(combo(MOD_META, *k)).unwrap() {
            Action::FocusWorkspace(w) => assert_eq!(*w, i),
            other => panic!("wrong action for index {}: {:?}", i, other),
        }
    }
}

#[test]
fn templated_group_duplicate_detection_runs_post_expansion() {
    let mut b = Bindings::new();
    // A collision with an existing binding.
    b.register(combo(MOD_META, 0x32), Action::KillClient).unwrap();
    let keys: Vec<u32> = vec![0x31, 0x32];
    let r = b.register_indexed(MOD_META, &keys, IndexedAction::FocusWorkspace);
    assert_eq!(r.unwrap_err(), ConfigError::DuplicateBinding);
    assert_eq!(b.binds.len(), 1);
    // A collision inside the group itself.
    let mut b2 = Bindings::new();
    let twice: Vec<u32> = vec![0x31, 0x31];
    let r2 = b2.register_indexed(MOD_META, &twice, IndexedAction::ClientToWorkspace);
    assert_eq!(r2.unwrap_err(), ConfigError::DuplicateBinding);
    assert_eq!(b2.binds.len(), 0);
}

#[test]
fn modifier_order_does_not_matter_for_equality() {
    // The modifier set is a bit mask, so the same set built in any order is
    // the same combination.
    let a = combo(MOD_META | MOD_SHIFT, 0x70);
    let b = combo(MOD_SHIFT | MOD_META, 0x70);
    assert_eq!(a, b);
}

#[test]
fn spawn_effect_carries_the_command() {
    let mut b = Bindings::new();
    b.register(combo(MOD_META, 0x70), Action::Spawn(String::from("passmenu"))).unwrap();
    match b.lookup(combo(MOD_META, 0x70)).unwrap() {
        Action::Spawn(cmd) => {
            let e = Effect::SpawnProcess { program: cmd.clone(), args: Vec::new() };
            match e {
                Effect::SpawnProcess { program, args } => {
                    assert_eq!(program, "passmenu");
                    assert!(args.is_empty());
                }
                _ => unreachable!(),
            }
        }
        other => panic!("wrong action bound: {:?}", other),
    }
}
