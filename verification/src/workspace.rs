//! Workspaces and clients: a named, ordered list of layouts with a cursor,
//! and the membership list of managed windows with a focus position.
//!
//! Cycling — of layouts, of clients, of workspaces — is one wrapping step
//! through an ordered list; [`spec_cycle_index`] is its common model and
//! [`lemma_cycle_full_circle`] states that as many steps as the list is long
//! return to the start.

use vstd::prelude::*;
use crate::actions::{Change, Direction};
use crate::errors::ConfigError;
use crate::layout::{spec_max_main_step, spec_ratio_step, Layout, LayoutView};

verus! {

/// The ghost image of a client.
pub ghost struct ClientView {
    pub id: u32,
    pub class: Seq<char>,
    pub floating: bool,
    pub fullscreen: bool,
}

/// A managed window: its identity, the class used to decide auto-floating,
/// and its current mode.
#[derive(Debug)]
pub struct Client {
    /// Window identity reported by the display layer.
    pub id: u32,
    /// Window class, matched against the configured floating classes.
    pub class: String,
    /// A floating client is kept out of the tiled arrangement.
    pub floating: bool,
    /// A fullscreen client covers the whole screen.
    pub fullscreen: bool,
}

impl View for Client {
    type V = ClientView;

    open spec fn view(&self) -> ClientView {
        ClientView {
            id: self.id,
            class: self.class@,
            floating: self.floating,
            fullscreen: self.fullscreen,
        }
    }
}

impl Client {
    /// Builds a client in tiled, non-fullscreen mode unless floated.
    pub fn new(id: u32, class: String, floating: bool) -> (c: Client)
        ensures
            c@ == (ClientView { id, class: class@, floating, fullscreen: false }),
    {
        Client { id, class, floating, fullscreen: false }
    }
}

/// The index one cycling step away from `i` in a list of length `len`,
/// wrapping at the ends.
pub open spec fn spec_cycle_index(i: int, len: int, dir: Direction) -> int
    recommends
        0 < len,
        0 <= i < len,
{
    match dir {
        Direction::Forward => if i + 1 < len {
            i + 1
        } else {
            0
        },
        Direction::Backward => if i > 0 {
            i - 1
        } else {
            len - 1
        },
    }
}

/// `k` cycling steps in the same direction.
pub open spec fn spec_cycle_n(i: int, len: int, dir: Direction, k: nat) -> int
    decreases k,
{
    if k == 0 {
        i
    } else {
        spec_cycle_index(spec_cycle_n(i, len, dir, (k - 1) as nat), len, dir)
    }
}

/// Cycling steps compose: `a + b` steps are `a` steps and then `b` more.
proof fn lemma_cycle_n_compose(i: int, len: int, dir: Direction, a: nat, b: nat)
    ensures
        spec_cycle_n(i, len, dir, a + b) == spec_cycle_n(spec_cycle_n(i, len, dir, a), len, dir, b),
    decreases b,
{
    if b > 0 {
        lemma_cycle_n_compose(i, len, dir, a, (b - 1) as nat);
    }
}

/// Forward steps that stay below the end simply add.
proof fn lemma_cycle_forward_no_wrap(i: int, len: int, k: nat)
    requires
        0 <= i,
        i + k < len,
    ensures
        spec_cycle_n(i, len, Direction::Forward, k) == i + k,
    decreases k,
{
    if k > 0 {
        lemma_cycle_forward_no_wrap(i, len, (k - 1) as nat);
    }
}

/// Backward steps that stay above the start simply subtract.
proof fn lemma_cycle_backward_no_wrap(i: int, len: int, k: nat)
    requires
        k <= i < len,
    ensures
        spec_cycle_n(i, len, Direction::Backward, k) == i - k,
    decreases k,
{
    if k > 0 {
        lemma_cycle_backward_no_wrap(i, len, (k - 1) as nat);
    }
}

/// Cycling is cyclic: as many steps as the list is long, in either
/// direction, return to the original position.
pub proof fn lemma_cycle_full_circle(i: int, len: int, dir: Direction)
    requires
        0 <= i < len,
    ensures
        spec_cycle_n(i, len, dir, len as nat) == i,
{
    match dir {
        Direction::Forward => {
            let up = (len - 1 - i) as nat;
            lemma_cycle_forward_no_wrap(i, len, up);
            lemma_cycle_n_compose(i, len, dir, up, (len - up) as nat);
            assert(spec_cycle_n(len - 1, len, dir, 0) == len - 1);
            assert(spec_cycle_n(len - 1, len, dir, 1) == 0);
            lemma_cycle_n_compose(len - 1, len, dir, 1, i as nat);
            lemma_cycle_forward_no_wrap(0, len, i as nat);
        },
        Direction::Backward => {
            lemma_cycle_backward_no_wrap(i, len, i as nat);
            lemma_cycle_n_compose(i, len, dir, i as nat, (len - i) as nat);
            assert(spec_cycle_n(0, len, dir, 0) == 0);
            assert(spec_cycle_n(0, len, dir, 1) == len - 1);
            lemma_cycle_n_compose(0, len, dir, 1, (len - 1 - i) as nat);
            lemma_cycle_backward_no_wrap(len - 1, len, (len - 1 - i) as nat);
        },
    }
}

/// The ghost image of a workspace.
pub ghost struct WorkspaceView {
    pub name: Seq<char>,
    pub layouts: Seq<LayoutView>,
    pub active_layout: int,
    pub clients: Seq<ClientView>,
    pub focused: int,
}

/// A named, switchable set of clients with its own ordered layout list and
/// layout cursor.
#[derive(Debug)]
pub struct Workspace {
    /// The configured name.
    pub name: String,
    /// The ordered layout list; never empty by construction.
    pub layouts: Vec<Layout>,
    /// Cursor into `layouts`.
    pub active_layout: usize,
    /// The member clients, in stack order.
    pub clients: Vec<Client>,
    /// Position of the focused client in `clients`; `0` when empty.
    pub focused: usize,
}

impl View for Workspace {
    type V = WorkspaceView;

    open spec fn view(&self) -> WorkspaceView {
        WorkspaceView {
            name: self.name@,
            layouts: self.layouts@.map_values(|l: Layout| l@),
            active_layout: self.active_layout as int,
            clients: self.clients@.map_values(|c: Client| c@),
            focused: self.focused as int,
        }
    }
}

impl Workspace {
    /// The layout list is nonempty, both cursors are in range, and every
    /// layout's ratio is valid.
    pub open spec fn wf(self) -> bool {
        &&& self.layouts@.len() > 0
        &&& self.active_layout < self.layouts@.len()
        &&& forall|i: int| 0 <= i < self.layouts@.len() ==> (#[trigger] self.layouts@[i]).wf()
        &&& (self.clients@.len() == 0 ==> self.focused == 0)
        &&& (self.clients@.len() > 0 ==> self.focused < self.clients@.len())
    }

    /// Builds an empty workspace over the given layout list; an empty list
    /// or an invalid ratio is a configuration error.
    pub fn new(name: String, layouts: Vec<Layout>) -> (r: Result<Workspace, ConfigError>)
        ensures
            r is Ok <==> layouts@.len() > 0 && (forall|i: int|
                0 <= i < layouts@.len() ==> (#[trigger] layouts@[i]).wf()),
            r matches Ok(w) ==> w.wf() && w.name == name && w.layouts == layouts
                && w.active_layout == 0 && w.clients@.len() == 0 && w.focused == 0,
            r matches Err(e) ==> (e == ConfigError::NoLayouts <==> layouts@.len() == 0) && (e
                == ConfigError::InvalidRatio <==> layouts@.len() > 0),
    {
        if layouts.len() == 0 {
            return Err(ConfigError::NoLayouts);
        }
        let mut i: usize = 0;
        while i < layouts.len()
            invariant
                i <= layouts@.len(),
                forall|j: int| 0 <= j < i ==> (#[trigger] layouts@[j]).wf(),
            decreases layouts@.len() - i,
        {
            if layouts[i].ratio > crate::geometry::RATIO_UNIT {
                return Err(ConfigError::InvalidRatio);
            }
            i = i + 1;
        }
        Ok(Workspace { name, layouts, active_layout: 0, clients: Vec::new(), focused: 0 })
    }

    /// The layout the cursor points at.
    pub fn active_layout(&self) -> (r: &Layout)
        requires
            self.wf(),
        ensures
            *r == self.layouts@[self.active_layout as int],
    {
        &self.layouts[self.active_layout]
    }

    /// Advances or retreats the layout cursor one wrapping step; everything
    /// else is untouched. Returns nothing; the caller reads the new active
    /// symbol for its hooks.
    pub fn cycle_layout(&mut self, dir: Direction)
        requires
            old(self).wf(),
        ensures
            final(self).active_layout == spec_cycle_index(
                old(self).active_layout as int,
                old(self).layouts@.len() as int,
                dir,
            ),
            final(self).name == old(self).name,
            final(self).layouts == old(self).layouts,
            final(self).clients == old(self).clients,
            final(self).focused == old(self).focused,
            final(self).wf(),
    {
        match dir {
            Direction::Forward => {
                if self.active_layout < self.layouts.len() - 1 {
                    self.active_layout = self.active_layout + 1;
                } else {
                    self.active_layout = 0;
                }
            },
            Direction::Backward => {
                if self.active_layout > 0 {
                    self.active_layout = self.active_layout - 1;
                } else {
                    self.active_layout = self.layouts.len() - 1;
                }
            },
        }
    }

    /// One ratio update step of the active layout; a step past a bound
    /// clamps there and is not an error.
    pub fn update_main_ratio(&mut self, change: Change)
        requires
            old(self).wf(),
        ensures
            final(self).layouts@.len() == old(self).layouts@.len(),
            final(self).layouts@[old(self).active_layout as int].ratio == spec_ratio_step(
                old(self).layouts@[old(self).active_layout as int].ratio as int,
                change,
            ),
            final(self).layouts@[old(self).active_layout as int] == (Layout {
                ratio: final(self).layouts@[old(self).active_layout as int].ratio,
                ..old(self).layouts@[old(self).active_layout as int]
            }),
            forall|i: int|
                0 <= i < old(self).layouts@.len() && i != old(self).active_layout ==> final(self).layouts@[i] == old(self).layouts@[i],
            *final(self) == (Workspace { layouts: final(self).layouts, ..*old(self) }),
            final(self).wf(),
    {
        let idx = self.active_layout;
        let l = &mut self.layouts[idx];
        l.update_main_ratio(change);
    }

    /// One update step of the active layout's main-client count.
    pub fn update_max_main(&mut self, change: Change)
        requires
            old(self).wf(),
        ensures
            final(self).layouts@.len() == old(self).layouts@.len(),
            final(self).layouts@[old(self).active_layout as int].max_main == spec_max_main_step(
                old(self).layouts@[old(self).active_layout as int].max_main as int,
                change,
            ),
            final(self).layouts@[old(self).active_layout as int] == (Layout {
                max_main: final(self).layouts@[old(self).active_layout as int].max_main,
                ..old(self).layouts@[old(self).active_layout as int]
            }),
            forall|i: int|
                0 <= i < old(self).layouts@.len() && i != old(self).active_layout ==> final(self).layouts@[i] == old(self).layouts@[i],
            *final(self) == (Workspace { layouts: final(self).layouts, ..*old(self) }),
            final(self).wf(),
    {
        let idx = self.active_layout;
        let l = &mut self.layouts[idx];
        l.update_max_main(change);
    }

    /// Adds a client to the top of the stack and focuses it.
    pub fn insert_client(&mut self, c: Client)
        requires
            old(self).wf(),
        ensures
            final(self).clients@ == old(self).clients@.push(c),
            final(self).focused == old(self).clients@.len(),
            final(self).name == old(self).name,
            final(self).layouts == old(self).layouts,
            final(self).active_layout == old(self).active_layout,
            final(self).wf(),
    {
        self.focused = self.clients.len();
        self.clients.push(c);
    }

    /// The position of the client with the given window identity, if it is a
    /// member.
    pub fn position_of(&self, id: u32) -> (r: Option<usize>)
        ensures
            match r {
                Some(i) => i < self.clients@.len() && self.clients@[i as int].id == id,
                None => forall|j: int|
                    0 <= j < self.clients@.len() ==> (#[trigger] self.clients@[j]).id != id,
            },
    {
        let mut i: usize = 0;
        while i < self.clients.len()
            invariant
                i <= self.clients@.len(),
                forall|j: int| 0 <= j < i ==> (#[trigger] self.clients@[j]).id != id,
            decreases self.clients@.len() - i,
        {
            if self.clients[i].id == id {
                return Some(i);
            }
            i = i + 1;
        }
        None
    }

    /// Removes the client at position `i` and returns it; focus stays on the
    /// same client where possible, else moves one position down.
    pub fn remove_client(&mut self, i: usize) -> (c: Client)
        requires
            old(self).wf(),
            i < old(self).clients@.len(),
        ensures
            c == old(self).clients@[i as int],
            final(self).clients@ == old(self).clients@.remove(i as int),
            final(self).focused == if old(self).focused >= i && old(self).focused > 0 {
                old(self).focused - 1
            } else {
                old(self).focused as int
            },
            final(self).name == old(self).name,
            final(self).layouts == old(self).layouts,
            final(self).active_layout == old(self).active_layout,
            final(self).wf(),
    {
        let c = self.clients.remove(i);
        if self.focused >= i && self.focused > 0 {
            self.focused = self.focused - 1;
        }
        c
    }

    /// Moves focus one wrapping step through the stack.
    pub fn cycle_client(&mut self, dir: Direction)
        requires
            old(self).wf(),
            old(self).clients@.len() > 0,
        ensures
            final(self).focused == spec_cycle_index(
                old(self).focused as int,
                old(self).clients@.len() as int,
                dir,
            ),
            final(self).name == old(self).name,
            final(self).layouts == old(self).layouts,
            final(self).active_layout == old(self).active_layout,
            final(self).clients == old(self).clients,
            final(self).wf(),
    {
        match dir {
            Direction::Forward => {
                if self.focused < self.clients.len() - 1 {
                    self.focused = self.focused + 1;
                } else {
                    self.focused = 0;
                }
            },
            Direction::Backward => {
                if self.focused > 0 {
                    self.focused = self.focused - 1;
                } else {
                    self.focused = self.clients.len() - 1;
                }
            },
        }
    }

    /// Drags the focused client one wrapping step through the stack; focus
    /// follows the dragged client.
    pub fn drag_client(&mut self, dir: Direction)
        requires
            old(self).wf(),
            old(self).clients@.len() > 0,
        ensures
            final(self).focused == spec_cycle_index(
                old(self).focused as int,
                old(self).clients@.len() as int,
                dir,
            ),
            final(self).clients@ == old(self).clients@.remove(old(self).focused as int).insert(
                final(self).focused as int,
                old(self).clients@[old(self).focused as int],
            ),
            final(self).name == old(self).name,
            final(self).layouts == old(self).layouts,
            final(self).active_layout == old(self).active_layout,
            final(self).wf(),
    {
        let len = self.clients.len();
        let from = self.focused;
        let to: usize = match dir {
            Direction::Forward => if from + 1 < len {
                from + 1
            } else {
                0
            },
            Direction::Backward => if from > 0 {
                from - 1
            } else {
                len - 1
            },
        };
        let c = self.clients.remove(from);
        self.clients.insert(to, c);
        self.focused = to;
    }

    /// Toggles the focused client between fullscreen and its former mode.
    pub fn toggle_focused_fullscreen(&mut self) -> (r: Option<(u32, bool)>)
        requires
            old(self).wf(),
        ensures
            old(self).clients@.len() == 0 ==> r is None && *final(self) == *old(self),
            old(self).clients@.len() > 0 ==> {
                let f = old(self).focused as int;
                let was = old(self).clients@[f].fullscreen;
                r == Some((old(self).clients@[f].id, !was)) && final(self).clients@.len() == old(self).clients@.len() && final(self).clients@[f].fullscreen == !was && final(self).clients@[f].id == old(self).clients@[f].id && final(self).clients@[f].class == old(self).clients@[f].class && final(self).clients@[f].floating == old(self).clients@[f].floating && (forall|j: int|
                    0 <= j < old(self).clients@.len() && j != f ==> final(self).clients@[j] == old(self).clients@[j]) && final(self).focused == old(self).focused
            },
            final(self).name == old(self).name,
            final(self).layouts == old(self).layouts,
            final(self).active_layout == old(self).active_layout,
            final(self).wf(),
    {
        if self.clients.len() == 0 {
            return None;
        }
        let idx = self.focused;
        let c = &mut self.clients[idx];
        c.fullscreen = !c.fullscreen;
        Some((c.id, c.fullscreen))
    }
}

} // verus!
