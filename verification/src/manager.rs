//! The manager core: configuration validation, the single-screen registry of
//! workspaces, and the dispatcher that carries key events out.
//!
//! A key press is dispatched by looking the combination up in the binding
//! table and applying exactly the registered action to the state; the result
//! is a list of [`Effect`] requests for the embedding and, for some actions,
//! the lifecycle event the hooks should see. An unbound key, a bad workspace
//! index, or a missing focused client is a recoverable error that leaves the
//! state untouched.
//!
//! The model has one screen, so the screen- and multi-monitor actions of the
//! binding surface (`CycleScreen`, `DragWorkspace`) wrap around to where they
//! started and are identities here.

use vstd::prelude::*;
use crate::actions::{Action, Direction, Effect};
use crate::bindings::{spec_lookup, Bindings};
use crate::errors::{ConfigError, DispatchError};
use crate::geometry::{centered_region, spec_centered, Region};
use crate::hooks::{run_hooks, spec_hook_effect, Hook, HookEvent};
use crate::keys::KeyCombo;
use crate::layout::{spec_max_main_step, spec_ratio_step, Layout};
use crate::scratchpad::{Scratchpad, ScratchpadState, ToggleRequest};
use crate::workspace::{spec_cycle_index, Client, Workspace};

verus! {

/// The configuration surface consumed at startup.
#[derive(Debug)]
pub struct Config {
    /// Ordered workspace names; fixed for the manager's lifetime.
    pub workspace_names: Vec<String>,
    /// Ordered layout list every workspace starts with.
    pub layouts: Vec<Layout>,
    /// Window classes that bypass tiling.
    pub floating_classes: Vec<String>,
    /// Border width drawn around clients, in pixels.
    pub border_px: u32,
    /// Border color of the focused client.
    pub focused_border: u32,
    /// Default gap around clients, in pixels.
    pub gap_px: u32,
}

/// What one dispatched key event asks of the embedding: the action's
/// effects, and the lifecycle event the hooks should see, if any.
#[derive(Debug)]
pub struct Dispatched {
    /// Requests for the display layer and the OS, in order.
    pub effects: Vec<Effect>,
    /// The lifecycle event this action triggered, if any.
    pub event: Option<HookEvent>,
}

/// The window manager core state.
#[derive(Debug)]
pub struct WindowManager {
    /// The configured workspaces, in order.
    pub workspaces: Vec<Workspace>,
    /// Index of the focused workspace.
    pub focused_ws: usize,
    /// Index of the workspace focused before the current one.
    pub previous_ws: usize,
    /// Geometry of the single screen.
    pub screen: Region,
    /// Window classes that bypass tiling.
    pub floating_classes: Vec<String>,
    /// The keybinding table.
    pub bindings: Bindings,
    /// The registered hooks, in registration order.
    pub hooks: Vec<Hook>,
    /// The scratchpad.
    pub scratchpad: Scratchpad,
    /// Border width drawn around clients, in pixels.
    pub border_px: u32,
    /// Border color of the focused client.
    pub focused_border: u32,
    /// Default gap around clients, in pixels.
    pub gap_px: u32,
}

/// `class` is one of the configured floating classes.
pub open spec fn spec_has_class(classes: Seq<String>, class: Seq<char>) -> bool {
    exists|i: int| 0 <= i < classes.len() && (#[trigger] classes[i])@ == class
}

/// The window identities of the tiled clients of a stack, in stack order:
/// floating and fullscreen clients bypass tiling.
pub open spec fn spec_tiled_ids(s: Seq<Client>) -> Seq<u32>
    decreases s.len(),
{
    if s.len() == 0 {
        Seq::empty()
    } else {
        let rest = spec_tiled_ids(s.drop_last());
        if !s.last().floating && !s.last().fullscreen {
            rest.push(s.last().id)
        } else {
            rest
        }
    }
}

/// `spec_tiled_ids` with the client at position `skip` left out.
pub open spec fn spec_tiled_ids_except(s: Seq<Client>, skip: int) -> Seq<u32>
    decreases s.len(),
{
    if s.len() == 0 {
        Seq::empty()
    } else {
        let rest = spec_tiled_ids_except(s.drop_last(), skip);
        if s.len() - 1 == skip {
            rest
        } else if !s.last().floating && !s.last().fullscreen {
            rest.push(s.last().id)
        } else {
            rest
        }
    }
}

/// The order in which the layout engine arranges the tiled clients: with
/// `follow_focus` and a tiled focused client, the focused client leads — the
/// main column always holds the most recently focused clients — and the rest
/// keep their stack order; otherwise plain stack order.
pub open spec fn spec_arranged_ids(clients: Seq<Client>, focused: int, follow: bool) -> Seq<u32> {
    if follow && 0 <= focused < clients.len() && !clients[focused].floating
        && !clients[focused].fullscreen {
        seq![clients[focused].id] + spec_tiled_ids_except(clients, focused)
    } else {
        spec_tiled_ids(clients)
    }
}

/// Focus moved to workspace `target` and nothing else changed; the previous
/// workspace is remembered when the target differs.
pub open spec fn spec_focus_moved(pre: WindowManager, post: WindowManager, target: int) -> bool {
    &&& post == (WindowManager { focused_ws: post.focused_ws, previous_ws: post.previous_ws, ..pre })
    &&& post.focused_ws == target
    &&& post.previous_ws == if target == pre.focused_ws {
        pre.previous_ws as int
    } else {
        pre.focused_ws as int
    }
}

/// Only the workspace at `w` changed, and nothing outside the workspace
/// list.
pub open spec fn spec_only_ws_changed(pre: WindowManager, post: WindowManager, w: int) -> bool {
    &&& post == (WindowManager { workspaces: post.workspaces, ..pre })
    &&& post.workspaces@.len() == pre.workspaces@.len()
    &&& forall|v: int|
        0 <= v < pre.workspaces@.len() && v != w ==> post.workspaces@[v] == pre.workspaces@[v]
}

/// Whether `a` can run against `pre`: the inputs on which dispatch owes
/// success.
pub open spec fn spec_action_applicable(pre: WindowManager, a: Action) -> bool {
    match a {
        Action::FocusWorkspace(i) => i < pre.workspaces@.len(),
        Action::ClientToWorkspace(i) => i < pre.workspaces@.len()
            && pre.workspaces@[pre.focused_ws as int].clients@.len() > 0,
        Action::CycleClient(_) | Action::DragClient(_) | Action::ToggleClientFullscreen
            | Action::KillClient => pre.workspaces@[pre.focused_ws as int].clients@.len() > 0,
        _ => true,
    }
}

/// Which recoverable error an inapplicable action surfaces.
pub open spec fn spec_dispatch_err(pre: WindowManager, a: Action, e: DispatchError) -> bool {
    match a {
        Action::FocusWorkspace(_) => e == DispatchError::NoSuchWorkspace,
        Action::ClientToWorkspace(i) => if i >= pre.workspaces@.len() {
            e == DispatchError::NoSuchWorkspace
        } else {
            e == DispatchError::NoFocusedClient
        },
        Action::CycleClient(_) | Action::DragClient(_) | Action::ToggleClientFullscreen
            | Action::KillClient => e == DispatchError::NoFocusedClient,
        _ => false,
    }
}

/// How a successful dispatch of `a` relates the state after to the state
/// before, and what it hands the embedding.
pub open spec fn spec_dispatch_ok(
    pre: WindowManager,
    post: WindowManager,
    a: Action,
    d: Dispatched,
) -> bool {
    let f = pre.focused_ws as int;
    let w0 = pre.workspaces@[f];
    let w1 = post.workspaces@[f];
    match a {
        Action::Exit => post == pre && d.event is None && d.effects@.len() == 1 && d.effects@[0] is Exit,
        Action::Spawn(cmd) => post == pre && d.event is None && d.effects@.len() == 1 && (
        d.effects@[0] matches Effect::SpawnProcess { program, args } && program@ == cmd@
            && args@.len() == 0),
        Action::FocusWorkspace(i) => spec_focus_moved(pre, post, i as int) && d.event == Some(
            HookEvent::WorkspaceChange,
        ) && d.effects@.len() == 0,
        Action::ToggleWorkspace => spec_focus_moved(pre, post, pre.previous_ws as int) && d.event
            == Some(HookEvent::WorkspaceChange) && d.effects@.len() == 0,
        Action::CycleWorkspace(dir) => spec_focus_moved(
            pre,
            post,
            spec_cycle_index(pre.focused_ws as int, pre.workspaces@.len() as int, dir),
        ) && d.event == Some(HookEvent::WorkspaceChange) && d.effects@.len() == 0,
        Action::CycleLayout(dir) => spec_only_ws_changed(pre, post, f) && w1 == (Workspace {
            active_layout: w1.active_layout,
            ..w0
        }) && w1.active_layout == spec_cycle_index(
            w0.active_layout as int,
            w0.layouts@.len() as int,
            dir,
        ) && d.event == Some(HookEvent::LayoutChange) && d.effects@.len() == 0,
        Action::UpdateMainRatio(ch) => {
            let al = w0.active_layout as int;
            spec_only_ws_changed(pre, post, f) && w1 == (Workspace { layouts: w1.layouts, ..w0 })
                && w1.layouts@.len() == w0.layouts@.len() && w1.layouts@[al] == (Layout {
                ratio: w1.layouts@[al].ratio,
                ..w0.layouts@[al]
            }) && w1.layouts@[al].ratio == spec_ratio_step(w0.layouts@[al].ratio as int, ch) && (
            forall|l: int|
                0 <= l < w0.layouts@.len() && l != al ==> w1.layouts@[l] == w0.layouts@[l])
                && d.event is None && d.effects@.len() == 0
        },
        Action::UpdateMaxMain(ch) => {
            let al = w0.active_layout as int;
            spec_only_ws_changed(pre, post, f) && w1 == (Workspace { layouts: w1.layouts, ..w0 })
                && w1.layouts@.len() == w0.layouts@.len() && w1.layouts@[al] == (Layout {
                max_main: w1.layouts@[al].max_main,
                ..w0.layouts@[al]
            }) && w1.layouts@[al].max_main == spec_max_main_step(
                w0.layouts@[al].max_main as int,
                ch,
            ) && (forall|l: int|
                0 <= l < w0.layouts@.len() && l != al ==> w1.layouts@[l] == w0.layouts@[l])
                && d.event is None && d.effects@.len() == 0
        },
        Action::CycleClient(dir) => spec_only_ws_changed(pre, post, f) && w1 == (Workspace {
            focused: w1.focused,
            ..w0
        }) && w1.focused == spec_cycle_index(w0.focused as int, w0.clients@.len() as int, dir)
            && d.event is None && d.effects@.len() == 1 && d.effects@[0] == Effect::FocusClient(
            w1.clients@[w1.focused as int].id,
        ),
        Action::DragClient(dir) => spec_only_ws_changed(pre, post, f) && w1 == (Workspace {
            clients: w1.clients,
            focused: w1.focused,
            ..w0
        }) && w1.focused == spec_cycle_index(w0.focused as int, w0.clients@.len() as int, dir)
            && w1.clients@ == w0.clients@.remove(w0.focused as int).insert(
            w1.focused as int,
            w0.clients@[w0.focused as int],
        ) && d.event is None && d.effects@.len() == 0,
        Action::ToggleClientFullscreen => {
            let was = w0.clients@[w0.focused as int].fullscreen;
            spec_only_ws_changed(pre, post, f) && w1 == (Workspace { clients: w1.clients, ..w0 })
                && w1.clients@.len() == w0.clients@.len() && w1.clients@[w0.focused as int] == (
            Client { fullscreen: !was, ..w0.clients@[w0.focused as int] }) && (forall|j: int|
                0 <= j < w0.clients@.len() && j != w0.focused ==> w1.clients@[j] == w0.clients@[j])
                && d.event is None && d.effects@.len() == 1 && d.effects@[0] == (
            Effect::SetFullscreen { client: w0.clients@[w0.focused as int].id, on: !was })
        },
        Action::KillClient => post == pre && d.event is None && d.effects@.len() == 1
            && d.effects@[0] == Effect::KillWindow(w0.clients@[w0.focused as int].id),
        Action::ClientToWorkspace(i) => if i == pre.focused_ws {
            post == pre && d.event is None && d.effects@.len() == 0
        } else {
            let moved = w0.clients@[w0.focused as int];
            let dest0 = pre.workspaces@[i as int];
            let dest1 = post.workspaces@[i as int];
            &&& post == (WindowManager { workspaces: post.workspaces, ..pre })
            &&& post.workspaces@.len() == pre.workspaces@.len()
            &&& forall|v: int|
                0 <= v < pre.workspaces@.len() && v != f && v != i ==> post.workspaces@[v]
                    == pre.workspaces@[v]
            &&& w1 == (Workspace { clients: w1.clients, focused: w1.focused, ..w0 })
            &&& w1.clients@ == w0.clients@.remove(w0.focused as int)
            &&& w1.focused == if w0.focused > 0 {
                w0.focused - 1
            } else {
                0
            }
            &&& dest1 == (Workspace { clients: dest1.clients, focused: dest1.focused, ..dest0 })
            &&& dest1.clients@ == dest0.clients@.push(moved)
            &&& dest1.focused == dest0.clients@.len()
            &&& d.event is None
            &&& d.effects@.len() == 1
            &&& d.effects@[0] == Effect::UnmapClient(moved.id)
        },
        Action::CycleScreen(_) | Action::DragWorkspace(_) => post == pre && d.event is None
            && d.effects@.len() == 0,
        Action::ToggleScratchpad => {
            let sp0 = pre.scratchpad;
            &&& post == (WindowManager { scratchpad: post.scratchpad, ..pre })
            &&& d.event is None
            &&& match sp0.state {
                ScratchpadState::Uninitialized => post.scratchpad == (Scratchpad {
                    state: ScratchpadState::Visible,
                    ..sp0
                }) && d.effects@.len() == 1 && (d.effects@[0] matches Effect::SpawnProcess {
                    program,
                    args,
                } && program@ == sp0.program@ && args@.len() == 0),
                ScratchpadState::Visible => post.scratchpad == (Scratchpad {
                    state: ScratchpadState::Hidden,
                    ..sp0
                }) && match sp0.client {
                    Some(id) => d.effects@.len() == 1 && d.effects@[0] == Effect::UnmapClient(id),
                    None => d.effects@.len() == 0,
                },
                ScratchpadState::Hidden => post.scratchpad == (Scratchpad {
                    state: ScratchpadState::Visible,
                    ..sp0
                }) && match sp0.client {
                    Some(id) => d.effects@.len() == 2 && d.effects@[0] == Effect::MapClient(id)
                        && d.effects@[1] == (Effect::ApplyRegion {
                        client: id,
                        region: spec_centered(
                            pre.screen,
                            sp0.width_num as int,
                            sp0.height_num as int,
                        ),
                    }),
                    None => d.effects@.len() == 0,
                },
            }
        },
    }
}

/// An empty effect list.
fn no_effects() -> (v: Vec<Effect>)
    ensures
        v@.len() == 0,
{
    Vec::new()
}

/// A one-element effect list.
fn one_effect(e: Effect) -> (v: Vec<Effect>)
    ensures
        v@.len() == 1,
        v@[0] == e,
{
    let mut v: Vec<Effect> = Vec::new();
    v.push(e);
    v
}

/// One wrapping step through `len` positions.
fn step_index(i: usize, len: usize, dir: Direction) -> (r: usize)
    requires
        0 < len,
        i < len,
    ensures
        r == spec_cycle_index(i as int, len as int, dir),
        r < len,
{
    match dir {
        Direction::Forward => if i < len - 1 {
            i + 1
        } else {
            0
        },
        Direction::Backward => if i > 0 {
            i - 1
        } else {
            len - 1
        },
    }
}

/// Copies of the configured layouts, one list per workspace, so that each
/// workspace can mutate its own parameters.
fn duplicate_layouts(layouts: &Vec<Layout>) -> (r: Vec<Layout>)
    ensures
        r@.len() == layouts@.len(),
        forall|i: int| 0 <= i < layouts@.len() ==> (#[trigger] r@[i])@ == layouts@[i]@,
{
    let mut r: Vec<Layout> = Vec::new();
    let mut i: usize = 0;
    while i < layouts.len()
        invariant
            i <= layouts@.len(),
            r@.len() == i,
            forall|j: int| 0 <= j < i ==> (#[trigger] r@[j])@ == layouts@[j]@,
        decreases layouts@.len() - i,
    {
        r.push(layouts[i].duplicate());
        i = i + 1;
    }
    r
}

impl WindowManager {
    /// The workspace list is nonempty, both focus indices are in range, every
    /// workspace and the scratchpad are well formed, and the screen fits the
    /// coordinate space.
    pub open spec fn wf(self) -> bool {
        &&& self.workspaces@.len() > 0
        &&& self.focused_ws < self.workspaces@.len()
        &&& self.previous_ws < self.workspaces@.len()
        &&& forall|w: int| 0 <= w < self.workspaces@.len() ==> (#[trigger] self.workspaces@[w]).wf()
        &&& self.screen.wf()
        &&& self.scratchpad.wf()
    }

    /// Builds the manager from the configuration surface: one workspace per
    /// configured name, each with its own copy of the layout list, focus on
    /// the first workspace. A configuration error is fatal: no manager is
    /// built.
    pub fn new(
        config: Config,
        hooks: Vec<Hook>,
        scratchpad: Scratchpad,
        bindings: Bindings,
        screen: Region,
    ) -> (r: Result<WindowManager, ConfigError>)
        requires
            scratchpad.wf(),
            screen.wf(),
        ensures
            r is Ok <==> config.workspace_names@.len() > 0 && config.layouts@.len() > 0 && (forall|
                i: int,
            | 0 <= i < config.layouts@.len() ==> (#[trigger] config.layouts@[i]).wf()),
            r matches Ok(wm) ==> {
                &&& wm.wf()
                &&& wm.workspaces@.len() == config.workspace_names@.len()
                &&& forall|w: int|
                    0 <= w < wm.workspaces@.len() ==> {
                        let ws = #[trigger] wm.workspaces@[w];
                        ws.name@ == config.workspace_names@[w]@ && ws@.layouts
                            == config.layouts@.map_values(|l: Layout| l@) && ws.clients@.len() == 0
                            && ws.active_layout == 0 && ws.focused == 0
                    }
                &&& wm.focused_ws == 0
                &&& wm.previous_ws == 0
                &&& wm.screen == screen
                &&& wm.floating_classes == config.floating_classes
                &&& wm.bindings == bindings
                &&& wm.hooks == hooks
                &&& wm.scratchpad == scratchpad
                &&& wm.border_px == config.border_px
                &&& wm.focused_border == config.focused_border
                &&& wm.gap_px == config.gap_px
            },
            r matches Err(e) ==> (e == ConfigError::NoWorkspaces <==> config.workspace_names@.len()
                == 0) && (config.workspace_names@.len() > 0 ==> (e == ConfigError::NoLayouts <==>
                config.layouts@.len() == 0)) && (config.workspace_names@.len() > 0
                && config.layouts@.len() > 0 ==> e == ConfigError::InvalidRatio),
    {
        if config.workspace_names.len() == 0 {
            return Err(ConfigError::NoWorkspaces);
        }
        if config.layouts.len() == 0 {
            return Err(ConfigError::NoLayouts);
        }
        let mut v: usize = 0;
        while v < config.layouts.len()
            invariant
                config.workspace_names@.len() > 0,
                config.layouts@.len() > 0,
                v <= config.layouts@.len(),
                forall|i: int| 0 <= i < v ==> (#[trigger] config.layouts@[i]).wf(),
            decreases config.layouts@.len() - v,
        {
            if config.layouts[v].ratio > crate::geometry::RATIO_UNIT {
                proof {
                    assert(!config.layouts@[v as int].wf());
                }
                return Err(ConfigError::InvalidRatio);
            }
            v = v + 1;
        }
        let mut workspaces: Vec<Workspace> = Vec::new();
        let mut w: usize = 0;
        while w < config.workspace_names.len()
            invariant
                w <= config.workspace_names@.len(),
                workspaces@.len() == w,
                config.workspace_names@.len() > 0,
                config.layouts@.len() > 0,
                forall|i: int| 0 <= i < config.layouts@.len() ==> (#[trigger] config.layouts@[i]).wf(),
                forall|j: int|
                    0 <= j < w ==> {
                        let ws = #[trigger] workspaces@[j];
                        ws.wf() && ws.name@ == config.workspace_names@[j]@ && ws@.layouts
                            == config.layouts@.map_values(|l: Layout| l@) && ws.clients@.len() == 0
                            && ws.active_layout == 0 && ws.focused == 0
                    },
            decreases config.workspace_names@.len() - w,
        {
            let name = config.workspace_names[w].clone();
            let copies = duplicate_layouts(&config.layouts);
            proof {
                assert(copies@.map_values(|l: Layout| l@) =~= config.layouts@.map_values(
                    |l: Layout| l@,
                ));
                assert forall|i: int| 0 <= i < copies@.len() implies (#[trigger] copies@[i]).wf() by {
                    assert(copies@[i]@ == config.layouts@[i]@);
                    assert(config.layouts@[i].wf());
                    assert(copies@[i]@.ratio == copies@[i].ratio);
                    assert(config.layouts@[i]@.ratio == config.layouts@[i].ratio);
                }
            }
            match Workspace::new(name, copies) {
                Ok(ws) => {
                    workspaces.push(ws);
                },
                Err(e) => {
                    return Err(e);
                },
            }
            w = w + 1;
        }
        Ok(
            WindowManager {
                workspaces,
                focused_ws: 0,
                previous_ws: 0,
                screen,
                floating_classes: config.floating_classes,
                bindings,
                hooks,
                scratchpad,
                border_px: config.border_px,
                focused_border: config.focused_border,
                gap_px: config.gap_px,
            },
        )
    }

    /// The display symbol of the focused workspace's active layout.
    pub fn active_symbol(&self) -> (r: &String)
        requires
            self.wf(),
        ensures
            r@ == self.workspaces@[self.focused_ws as int]@.layouts[self.workspaces@[self.focused_ws as int].active_layout as int].symbol,
    {
        let ws = &self.workspaces[self.focused_ws];
        &ws.active_layout().symbol
    }

    /// Consults every hook, in registration order, for `event`, handing each
    /// the active layout's symbol.
    pub fn run_event_hooks(&self, event: HookEvent) -> (r: Vec<Option<Effect>>)
        requires
            self.wf(),
        ensures
            r@.len() == self.hooks@.len(),
            forall|i: int|
                0 <= i < self.hooks@.len() ==> spec_hook_effect(
                    self.hooks@[i],
                    event,
                    self.workspaces@[self.focused_ws as int]@.layouts[self.workspaces@[self.focused_ws as int].active_layout as int].symbol,
                    #[trigger] r@[i],
                ),
    {
        let symbol = self.active_symbol();
        run_hooks(&self.hooks, event, symbol)
    }

    /// Moves workspace focus to `target`, remembering where it came from.
    fn set_focus(&mut self, target: usize)
        requires
            old(self).wf(),
            target < old(self).workspaces@.len(),
        ensures
            spec_focus_moved(*old(self), *final(self), target as int),
            final(self).wf(),
    {
        if target != self.focused_ws {
            self.previous_ws = self.focused_ws;
            self.focused_ws = target;
        }
    }

    /// Looks the pressed combination up and carries exactly the registered
    /// action out; an unbound combination or an inapplicable action leaves
    /// the state untouched and surfaces the error, so the event loop goes
    /// on.
    pub fn dispatch(&mut self, combo: KeyCombo) -> (r: Result<Dispatched, DispatchError>)
        requires
            old(self).wf(),
        ensures
            final(self).wf(),
            spec_lookup(old(self).bindings.binds@, combo) is None ==> (r matches Err(e) && e
                == DispatchError::UnboundKey && *final(self) == *old(self)),
            spec_lookup(old(self).bindings.binds@, combo) matches Some(a) ==> {
                &&& (r is Ok <==> spec_action_applicable(*old(self), a))
                &&& (r matches Ok(d) ==> spec_dispatch_ok(*old(self), *final(self), a, d))
                &&& (r matches Err(e) ==> *final(self) == *old(self) && spec_dispatch_err(
                    *old(self),
                    a,
                    e,
                ))
            },
    {
        let action = match self.bindings.lookup(combo) {
            Ok(a) => a,
            Err(e) => {
                return Err(e);
            },
        };
        match action {
            Action::Exit => Ok(Dispatched { effects: one_effect(Effect::Exit), event: None }),
            Action::Spawn(cmd) => {
                let program = cmd.clone();
                Ok(
                    Dispatched {
                        effects: one_effect(
                            Effect::SpawnProcess { program, args: Vec::new() },
                        ),
                        event: None,
                    },
                )
            },
            Action::FocusWorkspace(i) => {
                let i = *i;
                if i >= self.workspaces.len() {
                    return Err(DispatchError::NoSuchWorkspace);
                }
                self.set_focus(i);
                Ok(
                    Dispatched {
                        effects: no_effects(),
                        event: Some(HookEvent::WorkspaceChange),
                    },
                )
            },
            Action::ToggleWorkspace => {
                let t = self.previous_ws;
                self.set_focus(t);
                Ok(
                    Dispatched {
                        effects: no_effects(),
                        event: Some(HookEvent::WorkspaceChange),
                    },
                )
            },
            Action::CycleWorkspace(dir) => {
                let t = step_index(self.focused_ws, self.workspaces.len(), *dir);
                self.set_focus(t);
                Ok(
                    Dispatched {
                        effects: no_effects(),
                        event: Some(HookEvent::WorkspaceChange),
                    },
                )
            },
            Action::CycleLayout(dir) => {
                let f = self.focused_ws;
                let ws = &mut self.workspaces[f];
                ws.cycle_layout(*dir);
                Ok(
                    Dispatched { effects: no_effects(), event: Some(HookEvent::LayoutChange) },
                )
            },
            Action::UpdateMainRatio(ch) => {
                let f = self.focused_ws;
                let ws = &mut self.workspaces[f];
                ws.update_main_ratio(*ch);
                Ok(Dispatched { effects: no_effects(), event: None })
            },
            Action::UpdateMaxMain(ch) => {
                let f = self.focused_ws;
                let ws = &mut self.workspaces[f];
                ws.update_max_main(*ch);
                Ok(Dispatched { effects: no_effects(), event: None })
            },
            Action::CycleClient(dir) => {
                let f = self.focused_ws;
                if self.workspaces[f].clients.len() == 0 {
                    return Err(DispatchError::NoFocusedClient);
                }
                let ws = &mut self.workspaces[f];
                ws.cycle_client(*dir);
                let id = ws.clients[ws.focused].id;
                Ok(Dispatched { effects: one_effect(Effect::FocusClient(id)), event: None })
            },
            Action::DragClient(dir) => {
                let f = self.focused_ws;
                if self.workspaces[f].clients.len() == 0 {
                    return Err(DispatchError::NoFocusedClient);
                }
                let ws = &mut self.workspaces[f];
                ws.drag_client(*dir);
                Ok(Dispatched { effects: no_effects(), event: None })
            },
            Action::ToggleClientFullscreen => {
                let f = self.focused_ws;
                if self.workspaces[f].clients.len() == 0 {
                    return Err(DispatchError::NoFocusedClient);
                }
                let ws = &mut self.workspaces[f];
                match ws.toggle_focused_fullscreen() {
                    Some((id, on)) => Ok(
                        Dispatched {
                            effects: one_effect(Effect::SetFullscreen { client: id, on }),
                            event: None,
                        },
                    ),
                    None => Err(DispatchError::NoFocusedClient),
                }
            },
            Action::KillClient => {
                let f = self.focused_ws;
                let ws = &self.workspaces[f];
                if ws.clients.len() == 0 {
                    return Err(DispatchError::NoFocusedClient);
                }
                let id = ws.clients[ws.focused].id;
                Ok(Dispatched { effects: one_effect(Effect::KillWindow(id)), event: None })
            },
            Action::ClientToWorkspace(i) => {
                let i = *i;
                if i >= self.workspaces.len() {
                    return Err(DispatchError::NoSuchWorkspace);
                }
                let f = self.focused_ws;
                if self.workspaces[f].clients.len() == 0 {
                    return Err(DispatchError::NoFocusedClient);
                }
                if i == f {
                    return Ok(Dispatched { effects: no_effects(), event: None });
                }
                let c = {
                    let src = &mut self.workspaces[f];
                    let pos = src.focused;
                    src.remove_client(pos)
                };
                let id = c.id;
                let dest = &mut self.workspaces[i];
                dest.insert_client(c);
                Ok(Dispatched { effects: one_effect(Effect::UnmapClient(id)), event: None })
            },
            Action::CycleScreen(_) | Action::DragWorkspace(_) => {
                // One screen: cycling wraps straight back, dragging between
                // screens has nowhere to go.
                Ok(Dispatched { effects: no_effects(), event: None })
            },
            Action::ToggleScratchpad => {
                let req = self.scratchpad.toggle(&self.screen);
                let effects = match req {
                    ToggleRequest::Spawn { program, region: _ } => one_effect(
                        Effect::SpawnProcess { program, args: Vec::new() },
                    ),
                    ToggleRequest::Show { client, region } => {
                        match client {
                            Some(id) => {
                                let mut v = one_effect(Effect::MapClient(id));
                                v.push(Effect::ApplyRegion { client: id, region });
                                v
                            },
                            None => no_effects(),
                        }
                    },
                    ToggleRequest::Hide { client } => {
                        match client {
                            Some(id) => one_effect(Effect::UnmapClient(id)),
                            None => no_effects(),
                        }
                    },
                };
                Ok(Dispatched { effects, event: None })
            },
        }
    }

    /// The geometry requests that arrange the focused workspace's tiled
    /// clients — floating and fullscreen clients bypass tiling — under its
    /// active layout: one `ApplyRegion` per tiled client. With `follow_focus`
    /// the focused client leads and so fills the main column first; without
    /// it the clients keep their stack order.
    pub fn layout_effects(&self) -> (r: Vec<Effect>)
        requires
            self.wf(),
        ensures
            ({
                let ws = self.workspaces@[self.focused_ws as int];
                let l = ws.layouts@[ws.active_layout as int];
                let ids = spec_arranged_ids(
                    ws.clients@,
                    ws.focused as int,
                    l.conf.follow_focus,
                );
                let regs = crate::layout::spec_side_stack(
                    self.screen,
                    ids.len() as int,
                    l.max_main as int,
                    l.ratio as int,
                    l.spec_effective_gap() as int,
                );
                r@.len() == ids.len() && forall|k: int|
                    0 <= k < ids.len() ==> #[trigger] r@[k] == (Effect::ApplyRegion {
                        client: ids[k],
                        region: regs[k],
                    })
            }),
    {
        let ws = &self.workspaces[self.focused_ws];
        let follow = ws.active_layout().conf.follow_focus;
        let lead = follow && ws.clients.len() > 0 && {
            let c = &ws.clients[ws.focused];
            !c.floating && !c.fullscreen
        };
        let mut ids: Vec<u32> = Vec::new();
        if lead {
            ids.push(ws.clients[ws.focused].id);
            proof {
                assert(ids@ =~= seq![ws.clients@[ws.focused as int].id] + spec_tiled_ids_except(
                    ws.clients@.take(0),
                    ws.focused as int,
                ));
            }
            let mut i: usize = 0;
            while i < ws.clients.len()
                invariant
                    i <= ws.clients@.len(),
                    ws.focused < ws.clients@.len(),
                    ids@ == seq![ws.clients@[ws.focused as int].id] + spec_tiled_ids_except(
                        ws.clients@.take(i as int),
                        ws.focused as int,
                    ),
                decreases ws.clients@.len() - i,
            {
                proof {
                    assert(ws.clients@.take(i + 1).drop_last() =~= ws.clients@.take(i as int));
                    assert(ws.clients@.take(i + 1).last() == ws.clients@[i as int]);
                }
                let c = &ws.clients[i];
                if i != ws.focused && !c.floating && !c.fullscreen {
                    ids.push(c.id);
                }
                i = i + 1;
            }
            proof {
                assert(ws.clients@.take(ws.clients@.len() as int) =~= ws.clients@);
            }
        } else {
            let mut i: usize = 0;
            while i < ws.clients.len()
                invariant
                    i <= ws.clients@.len(),
                    ids@ == spec_tiled_ids(ws.clients@.take(i as int)),
                decreases ws.clients@.len() - i,
            {
                proof {
                    assert(ws.clients@.take(i + 1).drop_last() =~= ws.clients@.take(i as int));
                    assert(ws.clients@.take(i + 1).last() == ws.clients@[i as int]);
                }
                let c = &ws.clients[i];
                if !c.floating && !c.fullscreen {
                    ids.push(c.id);
                }
                i = i + 1;
            }
            proof {
                assert(ws.clients@.take(ws.clients@.len() as int) =~= ws.clients@);
            }
        }
        let layout = ws.active_layout();
        let regions = layout.regions(&self.screen, ids.len());
        let mut r: Vec<Effect> = Vec::new();
        let mut k: usize = 0;
        while k < ids.len()
            invariant
                k <= ids@.len(),
                regions@.len() == ids@.len(),
                r@.len() == k,
                forall|j: int|
                    0 <= j < k ==> #[trigger] r@[j] == (Effect::ApplyRegion {
                        client: ids@[j],
                        region: regions@[j],
                    }),
            decreases ids@.len() - k,
        {
            r.push(Effect::ApplyRegion { client: ids[k], region: regions[k] });
            k = k + 1;
        }
        r
    }

    /// The display layer reports a new window: it joins the focused
    /// workspace, floating when its class is configured to float or when the
    /// scratchpad claims it as its spawned backing client; a claimed window
    /// is also sized and centered right away.
    pub fn client_created(&mut self, id: u32, class: String) -> (r: Vec<Effect>)
        requires
            old(self).wf(),
        ensures
            final(self).wf(),
            ({
                let pre = *old(self);
                let post = *final(self);
                let claimed = pre.scratchpad.state != ScratchpadState::Uninitialized
                    && pre.scratchpad.client is None;
                let floats = spec_has_class(pre.floating_classes@, class@) || claimed;
                let f = pre.focused_ws as int;
                let w0 = pre.workspaces@[f];
                let w1 = post.workspaces@[f];
                &&& post == (WindowManager {
                    workspaces: post.workspaces,
                    scratchpad: post.scratchpad,
                    ..pre
                })
                &&& post.scratchpad == if claimed {
                    Scratchpad { client: Some(id), ..pre.scratchpad }
                } else {
                    pre.scratchpad
                }
                &&& post.workspaces@.len() == pre.workspaces@.len()
                &&& forall|v: int|
                    0 <= v < pre.workspaces@.len() && v != f ==> post.workspaces@[v]
                        == pre.workspaces@[v]
                &&& w1 == (Workspace { clients: w1.clients, focused: w1.focused, ..w0 })
                &&& w1.clients@.len() == w0.clients@.len() + 1
                &&& w1.clients@.drop_last() == w0.clients@
                &&& w1.clients@.last()@ == (crate::workspace::ClientView {
                    id,
                    class: class@,
                    floating: floats,
                    fullscreen: false,
                })
                &&& w1.focused == w0.clients@.len()
                &&& if claimed {
                    r@.len() == 1 && r@[0] == (Effect::ApplyRegion {
                        client: id,
                        region: spec_centered(
                            pre.screen,
                            pre.scratchpad.width_num as int,
                            pre.scratchpad.height_num as int,
                        ),
                    })
                } else {
                    r@.len() == 0
                }
            }),
    {
        let claimed = self.scratchpad.register_client(id);
        let mut floats = claimed;
        let mut i: usize = 0;
        while i < self.floating_classes.len()
            invariant
                i <= self.floating_classes@.len(),
                floats == (claimed || exists|j: int|
                    0 <= j < i && (#[trigger] self.floating_classes@[j])@ == class@),
            decreases self.floating_classes@.len() - i,
        {
            if self.floating_classes[i] == class {
                floats = true;
            }
            i = i + 1;
        }
        let c = Client::new(id, class, floats);
        let f = self.focused_ws;
        let ws = &mut self.workspaces[f];
        ws.insert_client(c);
        proof {
            assert(self.workspaces@[f as int].clients@.drop_last() =~= old(self).workspaces@[f as int].clients@);
        }
        if claimed {
            let region = centered_region(
                &self.screen,
                self.scratchpad.width_num,
                self.scratchpad.height_num,
            );
            one_effect(Effect::ApplyRegion { client: id, region })
        } else {
            no_effects()
        }
    }

    /// The display layer reports a destroyed window: the scratchpad resets if
    /// it was its backing client, and the window leaves the workspace that
    /// held it; workspaces that did not hold it are untouched.
    pub fn client_destroyed(&mut self, id: u32)
        requires
            old(self).wf(),
        ensures
            final(self).wf(),
            *final(self) == (WindowManager {
                workspaces: final(self).workspaces,
                scratchpad: final(self).scratchpad,
                ..*old(self)
            }),
            final(self).scratchpad == if old(self).scratchpad.client == Some(id) {
                Scratchpad {
                    state: ScratchpadState::Uninitialized,
                    client: None,
                    ..old(self).scratchpad
                }
            } else {
                old(self).scratchpad
            },
            final(self).workspaces@.len() == old(self).workspaces@.len(),
            (forall|v: int, j: int|
                0 <= v < old(self).workspaces@.len() && 0 <= j
                    < old(self).workspaces@[v].clients@.len() ==> (#[trigger] old(self).workspaces@[v].clients@[j]).id != id) ==> final(self).workspaces == old(self).workspaces,
            (exists|v: int, j: int|
                0 <= v < old(self).workspaces@.len() && 0 <= j
                    < old(self).workspaces@[v].clients@.len() && (#[trigger] old(self).workspaces@[v].clients@[j]).id == id) ==> exists|v: int, p: int|
                #![trigger old(self).workspaces@[v].clients@[p]]
                {
                    let w0 = old(self).workspaces@[v];
                    let w1 = final(self).workspaces@[v];
                    &&& 0 <= v < old(self).workspaces@.len()
                    &&& 0 <= p < w0.clients@.len()
                    &&& w0.clients@[p].id == id
                    &&& w1 == (Workspace { clients: w1.clients, focused: w1.focused, ..w0 })
                    &&& w1.clients@ == w0.clients@.remove(p)
                    &&& forall|u: int|
                        0 <= u < old(self).workspaces@.len() && u != v ==> final(self).workspaces@[u] == old(self).workspaces@[u]
                },
    {
        self.scratchpad.client_destroyed(id);
        let mut v: usize = 0;
        while v < self.workspaces.len()
            invariant
                v <= old(self).workspaces@.len(),
                *self == (WindowManager { scratchpad: self.scratchpad, ..*old(self) }),
                self.scratchpad == if old(self).scratchpad.client == Some(id) {
                    Scratchpad {
                        state: ScratchpadState::Uninitialized,
                        client: None,
                        ..old(self).scratchpad
                    }
                } else {
                    old(self).scratchpad
                },
                old(self).wf(),
                self.scratchpad.wf(),
                forall|u: int, j: int|
                    0 <= u < v && 0 <= j < old(self).workspaces@[u].clients@.len() ==> (
                    #[trigger] old(self).workspaces@[u].clients@[j]).id != id,
            decreases old(self).workspaces@.len() - v,
        {
            let pos = self.workspaces[v].position_of(id);
            match pos {
                Some(p) => {
                    let ws = &mut self.workspaces[v];
                    let _removed = ws.remove_client(p);
                    return ;
                },
                None => {},
            }
            v = v + 1;
        }
    }
}

} // verus!
