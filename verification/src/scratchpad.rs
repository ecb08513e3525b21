//! The scratchpad: a named, lazily spawned floating client toggled visible
//! and hidden on demand.
//!
//! The state machine has three states. A toggle from `Uninitialized` asks
//! the embedding to spawn the backing client and moves to `Visible`; a spawn
//! failure is reported back and resets the state, so the error surfaces
//! without the manager crashing. A toggle from `Visible` hides the client
//! without destroying it; one from `Hidden` shows it again, sized to the
//! configured fraction of the screen and centered. A toggle requests a spawn
//! exactly when the state is `Uninitialized`, so at most one backing client
//! is ever alive. When the backing client is destroyed externally the state
//! resets, and the next toggle respawns it.

use vstd::prelude::*;
use crate::errors::{ConfigError, SpawnError};
use crate::geometry::{centered_region, spec_centered, Region, RATIO_UNIT};

verus! {

/// The lifecycle states of the scratchpad's backing client.
#[derive(Clone, Copy, Debug, PartialEq, Eq, Structural)]
pub enum ScratchpadState {
    /// No backing client exists; the next toggle spawns one.
    Uninitialized,
    /// The backing client is mapped (or being spawned).
    Visible,
    /// The backing client exists but is unmapped.
    Hidden,
}

/// What one toggle asks the embedding to do.
#[derive(Debug)]
pub enum ToggleRequest {
    /// Spawn the backing client's program; apply `region` once its window
    /// appears.
    Spawn { program: String, region: Region },
    /// Map the backing client, if its window is known, and apply `region`.
    Show { client: Option<u32>, region: Region },
    /// Unmap the backing client, if its window is known.
    Hide { client: Option<u32> },
}

/// A lazily spawned floating client of a fixed command, toggled on demand.
#[derive(Debug)]
pub struct Scratchpad {
    /// The command spawned to create the backing client.
    pub program: String,
    /// The client's width as a fraction of the screen, in thousandths.
    pub width_num: u32,
    /// The client's height as a fraction of the screen, in thousandths.
    pub height_num: u32,
    /// Where in its lifecycle the backing client stands.
    pub state: ScratchpadState,
    /// The backing client's window, once the display layer has reported it.
    pub client: Option<u32>,
}

impl Scratchpad {
    /// Both size fractions are valid and an uninitialized scratchpad owns no
    /// window.
    pub open spec fn wf(self) -> bool {
        &&& self.width_num <= RATIO_UNIT
        &&& self.height_num <= RATIO_UNIT
        &&& (self.state == ScratchpadState::Uninitialized ==> self.client is None)
    }

    /// Builds an uninitialized scratchpad; a size fraction beyond one is a
    /// configuration error.
    pub fn new(program: String, width_num: u32, height_num: u32) -> (r: Result<
        Scratchpad,
        ConfigError,
    >)
        ensures
            r is Ok <==> width_num <= RATIO_UNIT && height_num <= RATIO_UNIT,
            r matches Ok(sp) ==> sp == (Scratchpad {
                program,
                width_num,
                height_num,
                state: ScratchpadState::Uninitialized,
                client: None,
            }) && sp.wf(),
            r matches Err(e) ==> e == ConfigError::InvalidRatio,
    {
        if width_num <= RATIO_UNIT && height_num <= RATIO_UNIT {
            Ok(
                Scratchpad {
                    program,
                    width_num,
                    height_num,
                    state: ScratchpadState::Uninitialized,
                    client: None,
                },
            )
        } else {
            Err(ConfigError::InvalidRatio)
        }
    }

    /// One toggle. A spawn is requested exactly when the state was
    /// `Uninitialized`, so re-toggling never spawns a second client while
    /// the first is alive.
    pub fn toggle(&mut self, screen: &Region) -> (r: ToggleRequest)
        requires
            old(self).wf(),
            screen.wf(),
        ensures
            final(self).program == old(self).program,
            final(self).width_num == old(self).width_num,
            final(self).height_num == old(self).height_num,
            final(self).client == old(self).client,
            r is Spawn <==> old(self).state == ScratchpadState::Uninitialized,
            old(self).state == ScratchpadState::Uninitialized ==> final(self).state
                == ScratchpadState::Visible && (r matches ToggleRequest::Spawn { program, region }
                && program@ == old(self).program@ && region == spec_centered(
                *screen,
                old(self).width_num as int,
                old(self).height_num as int,
            )),
            old(self).state == ScratchpadState::Visible ==> final(self).state
                == ScratchpadState::Hidden && r == (ToggleRequest::Hide {
                client: old(self).client,
            }),
            old(self).state == ScratchpadState::Hidden ==> final(self).state
                == ScratchpadState::Visible && (r matches ToggleRequest::Show { client, region }
                && client == old(self).client && region == spec_centered(
                *screen,
                old(self).width_num as int,
                old(self).height_num as int,
            )),
            final(self).wf(),
    {
        match self.state {
            ScratchpadState::Uninitialized => {
                self.state = ScratchpadState::Visible;
                let region = centered_region(screen, self.width_num, self.height_num);
                ToggleRequest::Spawn { program: self.program.clone(), region }
            },
            ScratchpadState::Visible => {
                self.state = ScratchpadState::Hidden;
                ToggleRequest::Hide { client: self.client }
            },
            ScratchpadState::Hidden => {
                self.state = ScratchpadState::Visible;
                let region = centered_region(screen, self.width_num, self.height_num);
                ToggleRequest::Show { client: self.client, region }
            },
        }
    }

    /// The embedding reports that the requested spawn failed: the state
    /// resets so the next toggle tries again, and the failure surfaces as a
    /// recoverable error.
    pub fn spawn_failed(&mut self) -> (e: SpawnError)
        ensures
            e == SpawnError::ScratchpadSpawnFailed,
            final(self).state == ScratchpadState::Uninitialized,
            final(self).client is None,
            final(self).program == old(self).program,
            final(self).width_num == old(self).width_num,
            final(self).height_num == old(self).height_num,
            old(self).wf() ==> final(self).wf(),
    {
        self.state = ScratchpadState::Uninitialized;
        self.client = None;
        SpawnError::ScratchpadSpawnFailed
    }

    /// The display layer reports a new window; the scratchpad claims it
    /// exactly when it has requested a spawn and owns no window yet.
    pub fn register_client(&mut self, id: u32) -> (accepted: bool)
        ensures
            accepted <==> old(self).state != ScratchpadState::Uninitialized && old(self).client is None,
            accepted ==> *final(self) == (Scratchpad { client: Some(id), ..*old(self) }),
            !accepted ==> *final(self) == *old(self),
            old(self).wf() ==> final(self).wf(),
    {
        match self.state {
            ScratchpadState::Uninitialized => false,
            _ => {
                if self.client.is_none() {
                    self.client = Some(id);
                    true
                } else {
                    false
                }
            },
        }
    }

    /// The display layer reports a destroyed window; losing the backing
    /// client resets the scratchpad, so the next toggle respawns it.
    pub fn client_destroyed(&mut self, id: u32)
        ensures
            old(self).client == Some(id) ==> final(self).state
                == ScratchpadState::Uninitialized && final(self).client is None && final(self).program == old(self).program && final(self).width_num == old(self).width_num && final(self).height_num == old(self).height_num,
            old(self).client != Some(id) ==> *final(self) == *old(self),
            old(self).wf() ==> final(self).wf(),
    {
        let matches_backing = match self.client {
            Some(c) => c == id,
            None => false,
        };
        if matches_backing {
            self.state = ScratchpadState::Uninitialized;
            self.client = None;
        }
    }
}

} // verus!
