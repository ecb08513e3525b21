//! The keybinding table: a finite map from key combinations to actions,
//! built at configuration time and consulted on every key press.
//!
//! Registration refuses a combination that is already bound, so the table
//! holds at most one action per combination; lookup returns exactly the
//! action registered for the pressed combination. A templated binding group
//! (one binding pattern applied across workspace indices) is expanded into
//! concrete bindings first, and duplicate detection runs on the expansion.

use vstd::prelude::*;
use crate::actions::Action;
use crate::errors::{ConfigError, DispatchError};
use crate::keys::KeyCombo;

verus! {

/// The action registered for `combo`: the first entry with that combination.
pub open spec fn spec_lookup(binds: Seq<(KeyCombo, Action)>, combo: KeyCombo) -> Option<Action>
    decreases binds.len(),
{
    if binds.len() == 0 {
        None
    } else if binds[0].0 == combo {
        Some(binds[0].1)
    } else {
        spec_lookup(binds.drop_first(), combo)
    }
}

/// A combination absent from every entry is unbound.
pub proof fn lemma_lookup_none(binds: Seq<(KeyCombo, Action)>, combo: KeyCombo)
    requires
        forall|j: int| 0 <= j < binds.len() ==> (#[trigger] binds[j]).0 != combo,
    ensures
        spec_lookup(binds, combo) is None,
    decreases binds.len(),
{
    if binds.len() > 0 {
        lemma_lookup_none(binds.drop_first(), combo);
    }
}

/// The first matching entry decides the lookup.
pub proof fn lemma_lookup_at(binds: Seq<(KeyCombo, Action)>, combo: KeyCombo, i: int)
    requires
        0 <= i < binds.len(),
        binds[i].0 == combo,
        forall|j: int| 0 <= j < i ==> (#[trigger] binds[j]).0 != combo,
    ensures
        spec_lookup(binds, combo) == Some(binds[i].1),
    decreases i,
{
    if i > 0 {
        lemma_lookup_at(binds.drop_first(), combo, i - 1);
    }
}

/// Appending an entry resolves combinations that were already bound as
/// before, and binds the new combination where it was unbound.
pub proof fn lemma_lookup_push(binds: Seq<(KeyCombo, Action)>, entry: (KeyCombo, Action), combo: KeyCombo)
    ensures
        spec_lookup(binds.push(entry), combo) == if spec_lookup(binds, combo) is Some {
            spec_lookup(binds, combo)
        } else if entry.0 == combo {
            Some(entry.1)
        } else {
            None
        },
    decreases binds.len(),
{
    let pushed = binds.push(entry);
    assert(pushed.len() == binds.len() + 1);
    if binds.len() == 0 {
        assert(pushed[0] == entry);
        assert(pushed.drop_first() =~= Seq::<(KeyCombo, Action)>::empty());
        assert(spec_lookup(pushed.drop_first(), combo) is None);
    } else {
        assert(pushed[0] == binds[0]);
        assert(pushed.drop_first() =~= binds.drop_first().push(entry));
        lemma_lookup_push(binds.drop_first(), entry, combo);
        if binds[0].0 == combo {
            assert(spec_lookup(pushed, combo) == Some(binds[0].1));
        } else {
            assert(spec_lookup(pushed, combo) == spec_lookup(binds.drop_first().push(entry), combo));
        }
    }
}

/// The combination of a modifier mask and one key symbol.
pub open spec fn spec_combo(modifiers: u8, key: u32) -> KeyCombo {
    KeyCombo { modifiers, key }
}

/// A templated binding: one action family applied across workspace indices.
#[derive(Clone, Copy, Debug, PartialEq, Eq, Structural)]
pub enum IndexedAction {
    /// Focus the workspace with the key's index.
    FocusWorkspace,
    /// Send the focused client to the workspace with the key's index.
    ClientToWorkspace,
}

/// The concrete action a templated binding takes for index `i`.
pub open spec fn spec_indexed_action(template: IndexedAction, i: int) -> Action {
    match template {
        IndexedAction::FocusWorkspace => Action::FocusWorkspace(i as usize),
        IndexedAction::ClientToWorkspace => Action::ClientToWorkspace(i as usize),
    }
}

/// The concrete entries a templated binding group expands into: one per key,
/// parametrized with the key's position.
pub open spec fn spec_expansion(modifiers: u8, keys: Seq<u32>, template: IndexedAction) -> Seq<
    (KeyCombo, Action),
> {
    Seq::new(keys.len(), |i: int| (spec_combo(modifiers, keys[i]), spec_indexed_action(template, i)))
}

/// The keybinding dispatch table.
#[derive(Debug)]
pub struct Bindings {
    /// The registered entries, in registration order; registration keeps the
    /// combinations pairwise distinct.
    pub binds: Vec<(KeyCombo, Action)>,
}

/// The position of the first entry bound to `combo`, if any.
fn find(binds: &Vec<(KeyCombo, Action)>, combo: KeyCombo) -> (r: Option<usize>)
    ensures
        match r {
            Some(i) => i < binds@.len() && binds@[i as int].0 == combo && spec_lookup(
                binds@,
                combo,
            ) == Some(binds@[i as int].1),
            None => spec_lookup(binds@, combo) is None,
        },
{
    let mut i: usize = 0;
    while i < binds.len()
        invariant
            i <= binds@.len(),
            forall|j: int| 0 <= j < i ==> (#[trigger] binds@[j]).0 != combo,
        decreases binds@.len() - i,
    {
        if binds[i].0 == combo {
            proof {
                lemma_lookup_at(binds@, combo, i as int);
            }
            return Some(i);
        }
        i = i + 1;
    }
    proof {
        lemma_lookup_none(binds@, combo);
    }
    None
}

impl Bindings {
    /// An empty table: every combination is unbound.
    pub fn new() -> (r: Bindings)
        ensures
            r.binds@.len() == 0,
    {
        Bindings { binds: Vec::new() }
    }

    /// Registers `action` under `combo`; refuses a combination that is
    /// already bound and then leaves the table, and so the first
    /// registration, untouched.
    pub fn register(&mut self, combo: KeyCombo, action: Action) -> (r: Result<(), ConfigError>)
        ensures
            match r {
                Ok(_) => spec_lookup(old(self).binds@, combo) is None && final(self).binds@
                    == old(self).binds@.push((combo, action)),
                Err(e) => e == ConfigError::DuplicateBinding && spec_lookup(
                    old(self).binds@,
                    combo,
                ) is Some && *final(self) == *old(self),
            },
    {
        match find(&self.binds, combo) {
            Some(_) => Err(ConfigError::DuplicateBinding),
            None => {
                self.binds.push((combo, action));
                Ok(())
            },
        }
    }

    /// The action registered for `combo`, or `UnboundKey` where there is
    /// none.
    pub fn lookup(&self, combo: KeyCombo) -> (r: Result<&Action, DispatchError>)
        ensures
            match r {
                Ok(a) => spec_lookup(self.binds@, combo) == Some(*a),
                Err(e) => e == DispatchError::UnboundKey && spec_lookup(
                    self.binds@,
                    combo,
                ) is None,
            },
    {
        match find(&self.binds, combo) {
            Some(i) => Ok(&self.binds[i].1),
            None => Err(DispatchError::UnboundKey),
        }
    }

    /// Expands a templated binding group across the given keys — key `i`
    /// gets the template's action for index `i` — and registers the
    /// expansion. Duplicate detection runs post-expansion: a collision with
    /// the table or within the group fails with `DuplicateBinding` and
    /// leaves the table untouched.
    pub fn register_indexed(&mut self, modifiers: u8, keys: &Vec<u32>, template: IndexedAction) -> (r:
        Result<(), ConfigError>)
        ensures
            match r {
                Ok(_) => final(self).binds@ == old(self).binds@ + spec_expansion(
                    modifiers,
                    keys@,
                    template,
                ) && forall|i: int|
                    0 <= i < keys@.len() ==> spec_lookup(
                        old(self).binds@,
                        spec_combo(modifiers, keys@[i]),
                    ) is None && forall|j: int| 0 <= j < i ==> keys@[j] != keys@[i],
                Err(e) => e == ConfigError::DuplicateBinding && *final(self) == *old(self) && exists|
                    i: int,
                |
                    0 <= i < keys@.len() && (spec_lookup(
                        old(self).binds@,
                        spec_combo(modifiers, keys@[i]),
                    ) is Some || exists|j: int| 0 <= j < i && keys@[j] == keys@[i]),
            },
    {
        // Duplicate detection over the whole expansion, before any entry is
        // added: a configuration error must not leave a half-registered
        // group behind.
        let mut i: usize = 0;
        while i < keys.len()
            invariant
                i <= keys@.len(),
                forall|k: int|
                    0 <= k < i ==> spec_lookup(
                        self.binds@,
                        spec_combo(modifiers, #[trigger] keys@[k]),
                    ) is None,
                forall|k: int, j: int| 0 <= j < k < i ==> keys@[j] != keys@[k],
            decreases keys@.len() - i,
        {
            let combo = KeyCombo { modifiers, key: keys[i] };
            if find(&self.binds, combo).is_some() {
                return Err(ConfigError::DuplicateBinding);
            }
            let mut j: usize = 0;
            while j < i
                invariant
                    j <= i < keys@.len(),
                    forall|l: int| 0 <= l < j ==> keys@[l] != keys@[i as int],
                decreases i - j,
            {
                if keys[j] == keys[i] {
                    return Err(ConfigError::DuplicateBinding);
                }
                j = j + 1;
            }
            i = i + 1;
        }
        // The expansion is collision-free; append it entry by entry.
        let ghost orig = self.binds@;
        let ghost exp = spec_expansion(modifiers, keys@, template);
        proof {
            assert(orig + exp.take(0) =~= orig);
        }
        let mut i: usize = 0;
        while i < keys.len()
            invariant
                i <= keys@.len(),
                exp == spec_expansion(modifiers, keys@, template),
                self.binds@ == orig + exp.take(i as int),
            decreases keys@.len() - i,
        {
            let combo = KeyCombo { modifiers, key: keys[i] };
            let action = match template {
                IndexedAction::FocusWorkspace => Action::FocusWorkspace(i),
                IndexedAction::ClientToWorkspace => Action::ClientToWorkspace(i),
            };
            self.binds.push((combo, action));
            proof {
                assert(orig + exp.take(i as int + 1) =~= (orig + exp.take(i as int)).push(
                    (combo, action),
                ));
            }
            i = i + 1;
        }
        proof {
            assert(exp.take(keys@.len() as int) =~= exp);
        }
        Ok(())
    }
}

/// Registering a second action under an already bound combination cannot
/// change what the combination resolves to: after a first registration the
/// combination resolves to the first action, and `register` then refuses the
/// second and leaves the table as it was.
pub proof fn lemma_first_registration_wins(
    binds: Seq<(KeyCombo, Action)>,
    combo: KeyCombo,
    first: Action,
)
    requires
        spec_lookup(binds, combo) is None,
    ensures
        spec_lookup(binds.push((combo, first)), combo) == Some(first),
{
    lemma_lookup_push(binds, (combo, first), combo);
}

} // verus!
