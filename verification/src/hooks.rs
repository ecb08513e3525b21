//! The hook lifecycle: registered hooks are consulted in registration order
//! at defined manager events, and a failing hook is recorded and skipped —
//! it never aborts the remaining hooks or the operation that triggered it.
//!
//! A hook's own work is an [`Effect`] the embedding carries out; what can
//! fail is that work, so the runner takes each outcome back through
//! [`HookRun::record`], whose cursor advances whatever the outcome was.

use vstd::prelude::*;
use crate::actions::Effect;

verus! {

/// The manager lifecycle events hooks react to.
#[derive(Clone, Copy, Debug, PartialEq, Eq, Structural)]
pub enum HookEvent {
    /// The manager finished initialization; runs exactly once, before the
    /// first event is processed.
    Startup,
    /// The focused workspace changed its active layout.
    LayoutChange,
    /// Focus moved to another workspace.
    WorkspaceChange,
    /// A new client appeared.
    NewClient,
}

/// Runs a user script once at manager startup.
#[derive(Debug)]
pub struct StartupScript {
    path: String,
}

impl View for StartupScript {
    type V = Seq<char>;

    closed spec fn view(&self) -> Seq<char> {
        self.path@
    }
}

impl StartupScript {
    /// A startup hook for the script at the given path.
    pub fn new(s: String) -> (r: StartupScript)
        ensures
            r@ == s@,
    {
        StartupScript { path: s }
    }

    /// The configured script path.
    pub fn path(&self) -> (r: &String)
        ensures
            r@ == self@,
    {
        &self.path
    }
}

/// One registered hook.
#[derive(Debug)]
pub enum Hook {
    /// Runs its script, through the shell, once at startup.
    Startup(StartupScript),
    /// Keeps the root window's name equal to the active layout's symbol.
    LayoutSymbolAsRootName,
}

/// What hook `h` asks for on `event`, given the active layout's `symbol`:
/// the startup-script hook spawns its script through the shell at startup;
/// the root-name hook renames the root window at startup and on every layout
/// change; on other events a hook asks for nothing.
pub open spec fn spec_hook_effect(h: Hook, event: HookEvent, symbol: Seq<char>, r: Option<
    Effect,
>) -> bool {
    match h {
        Hook::Startup(s) => if event == HookEvent::Startup {
            r matches Some(e) && e matches Effect::SpawnProcess { program, args } && program@
                == "sh"@ && args@.len() == 2 && args@[0]@ == "-c"@ && args@[1]@ == s@
        } else {
            r is None
        },
        Hook::LayoutSymbolAsRootName => if event == HookEvent::Startup || event
            == HookEvent::LayoutChange {
            r matches Some(e) && e matches Effect::SetRootName(n) && n@ == symbol
        } else {
            r is None
        },
    }
}

/// The effect hook `h` asks for on `event`; `symbol` is the active layout's
/// display symbol.
pub fn hook_effect(h: &Hook, event: HookEvent, symbol: &String) -> (r: Option<Effect>)
    ensures
        spec_hook_effect(*h, event, symbol@, r),
{
    match h {
        Hook::Startup(s) => {
            if event == HookEvent::Startup {
                let mut args: Vec<String> = Vec::new();
                args.push(String::from_str("-c"));
                args.push(s.path().clone());
                Some(Effect::SpawnProcess { program: String::from_str("sh"), args })
            } else {
                None
            }
        },
        Hook::LayoutSymbolAsRootName => {
            if event == HookEvent::Startup || event == HookEvent::LayoutChange {
                Some(Effect::SetRootName(symbol.clone()))
            } else {
                None
            }
        },
    }
}

/// Consults every hook, in registration order, for `event`: the result has
/// one entry per hook, so no hook's request depends on another hook's
/// outcome.
pub fn run_hooks(hooks: &Vec<Hook>, event: HookEvent, symbol: &String) -> (r: Vec<Option<Effect>>)
    ensures
        r@.len() == hooks@.len(),
        forall|i: int|
            0 <= i < hooks@.len() ==> spec_hook_effect(hooks@[i], event, symbol@, #[trigger] r@[i]),
{
    let mut r: Vec<Option<Effect>> = Vec::new();
    let mut i: usize = 0;
    while i < hooks.len()
        invariant
            i <= hooks@.len(),
            r@.len() == i,
            forall|j: int|
                0 <= j < i ==> spec_hook_effect(hooks@[j], event, symbol@, #[trigger] r@[j]),
        decreases hooks@.len() - i,
    {
        let e = hook_effect(&hooks[i], event, symbol);
        r.push(e);
        i = i + 1;
    }
    r
}

/// The progress of one event's hook run: how many hooks have been handled
/// and which of them failed.
#[derive(Debug)]
pub struct HookRun {
    /// Position of the next hook to run.
    pub next: usize,
    /// Positions of the hooks whose work failed, in order.
    pub failed: Vec<usize>,
}

impl HookRun {
    /// A run that has handled no hook yet.
    pub fn new() -> (r: HookRun)
        ensures
            r.next == 0,
            r.failed@.len() == 0,
    {
        HookRun { next: 0, failed: Vec::new() }
    }

    /// Records the outcome of the hook at the cursor. The cursor advances
    /// whether or not that hook failed: a failure is noted and skipped, and
    /// never aborts the hooks after it.
    pub fn record(&mut self, ok: bool)
        requires
            old(self).next < usize::MAX,
        ensures
            final(self).next == old(self).next + 1,
            final(self).failed@ == if ok {
                old(self).failed@
            } else {
                old(self).failed@.push(old(self).next)
            },
    {
        if !ok {
            self.failed.push(self.next);
        }
        self.next = self.next + 1;
    }
}

/// Where the cursor of a hook run stands after the given outcomes.
pub open spec fn spec_cursor_after(outcomes: Seq<bool>) -> int
    decreases outcomes.len(),
{
    if outcomes.len() == 0 {
        0
    } else {
        spec_cursor_after(outcomes.drop_last()) + 1
    }
}

/// The positions whose outcome was a failure.
pub open spec fn spec_failures_after(outcomes: Seq<bool>) -> Seq<int>
    decreases outcomes.len(),
{
    if outcomes.len() == 0 {
        Seq::empty()
    } else {
        let rest = spec_failures_after(outcomes.drop_last());
        if outcomes.last() {
            rest
        } else {
            rest.push(outcomes.len() - 1)
        }
    }
}

/// Hook failures never cut a run short: however the outcomes fall — any hook
/// may fail — the cursor reaches the end, so every registered hook is
/// handled, in order, and the failures are exactly the failing positions.
pub proof fn lemma_every_hook_reached(outcomes: Seq<bool>)
    ensures
        spec_cursor_after(outcomes) == outcomes.len(),
        spec_failures_after(outcomes).len() <= outcomes.len(),
        forall|i: int|
            0 <= i < spec_failures_after(outcomes).len() ==> 0 <= #[trigger] spec_failures_after(
                outcomes,
            )[i] < outcomes.len() && !outcomes[spec_failures_after(outcomes)[i]],
    decreases outcomes.len(),
{
    if outcomes.len() > 0 {
        lemma_every_hook_reached(outcomes.drop_last());
    }
}

} // verus!
