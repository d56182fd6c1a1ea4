//! The Host Loop Controller.
//!
//! The controller owns the bridge's lifecycle for one boundary call:
//! uninitialized, configuration decoded, window created, running,
//! terminated — in that order, with no way back. The OS work itself
//! (creating the window, waiting for events) happens at the boundary;
//! the controller decides each step, records it, and keeps the lifecycle
//! invariant: exactly one window exists from creation on, and a marshaled
//! configuration is kept from decoding on.

use vstd::prelude::*;

use crate::config::HostConfiguration;
use crate::config::HostError;
use crate::config::WindowSettings;
use crate::config::decode_configuration;
use crate::events::HostAction;
use crate::events::HostEvent;
use crate::events::LoopState;
use crate::events::action_for;
use crate::events::handle_event;
use crate::events::next_state;
use crate::utf8::is_utf8;

verus! {

/// Where the bridge stands in its lifetime. The phases come in order:
/// `Uninitialized`, `ConfigurationDecoded`, `WindowCreated`, `Running`,
/// `Terminated`; there is no pause and no error phase — a failure is
/// reported to the caller and the controller stays where it was.
#[derive(Clone, Copy, Debug, PartialEq, Eq, Structural)]
pub enum HostPhase {
    Uninitialized,
    ConfigurationDecoded,
    WindowCreated,
    Running,
    Terminated,
}

/// The dispatch-loop state a phase stands for, once the loop has begun.
pub open spec fn loop_state_of(phase: HostPhase) -> LoopState {
    if phase is Terminated {
        LoopState::Terminated
    } else {
        LoopState::Running
    }
}

/// The Host Loop Controller: the phase of the lifecycle, how many windows
/// have been created, and the marshaled configuration once decoding has
/// succeeded.
pub struct HostController {
    pub phase: HostPhase,
    pub windows_created: u32,
    pub settings: Option<WindowSettings>,
}

impl HostController {
    /// The lifecycle invariant: no window exists before the creation step
    /// and exactly one from then on, and from decoding on the controller
    /// holds a well-formed marshaled configuration.
    pub open spec fn well_formed(self) -> bool {
        &&& match self.phase {
            HostPhase::Uninitialized | HostPhase::ConfigurationDecoded => self.windows_created
                == 0,
            _ => self.windows_created == 1,
        }
        &&& (self.phase is Uninitialized ==> self.settings is None)
        &&& (!(self.phase is Uninitialized) ==> (self.settings matches Some(s)
            && s.well_formed()))
    }

    /// A fresh controller: uninitialized, no window, no configuration.
    pub fn new() -> (r: HostController)
        ensures
            r.phase == HostPhase::Uninitialized,
            r.windows_created == 0,
            r.well_formed(),
    {
        HostController { phase: HostPhase::Uninitialized, windows_created: 0, settings: None }
    }

    /// Marshals the configuration record. Succeeds exactly when the title
    /// bytes are valid UTF-8: the controller then holds the marshaled
    /// settings, field for field as the caller supplied them, and moves to
    /// `ConfigurationDecoded`. Otherwise it reports `InvalidEncoding` and
    /// is left exactly as it was.
    pub fn decode(&mut self, config: HostConfiguration) -> (r: Result<(), HostError>)
        requires
            old(self).phase == HostPhase::Uninitialized,
            old(self).well_formed(),
        ensures
            final(self).well_formed(),
            is_utf8(config.window_title@) ==> {
                &&& r == Ok::<(), HostError>(())
                &&& final(self).phase == HostPhase::ConfigurationDecoded
                &&& final(self).windows_created == 0
                &&& final(self).settings matches Some(s)
                &&& s.title@ == config.window_title@
                &&& s.width == config.window_width
                &&& s.height == config.window_height
                &&& s.resizable == config.is_resizable
            },
            !is_utf8(config.window_title@) ==> {
                &&& r == Err::<(), HostError>(HostError::InvalidEncoding)
                &&& *final(self) == *old(self)
            },
    {
        match decode_configuration(config) {
            Ok(settings) => {
                self.settings = Some(settings);
                self.phase = HostPhase::ConfigurationDecoded;
                Ok(())
            },
            Err(e) => Err(e),
        }
    }

    /// Records the one window creation of the call (the OS call itself
    /// happens at the boundary, from the held settings): the window count
    /// goes from zero to one and the phase to `WindowCreated`.
    pub fn window_created(&mut self)
        requires
            old(self).phase == HostPhase::ConfigurationDecoded,
            old(self).well_formed(),
        ensures
            final(self).well_formed(),
            final(self).phase == HostPhase::WindowCreated,
            final(self).windows_created == 1,
            final(self).settings == old(self).settings,
    {
        self.windows_created = self.windows_created + 1;
        self.phase = HostPhase::WindowCreated;
    }

    /// Enters the running state: the dispatch loop may now deliver events.
    /// Still exactly one window.
    pub fn begin_running(&mut self)
        requires
            old(self).phase == HostPhase::WindowCreated,
            old(self).well_formed(),
        ensures
            final(self).well_formed(),
            final(self).phase == HostPhase::Running,
            final(self).windows_created == 1,
            final(self).settings == old(self).settings,
    {
        self.phase = HostPhase::Running;
    }

    /// Answers one event of the dispatch loop: exactly the policy
    /// `next_state` and `action_for`, mapped onto the phase. The window
    /// count and the settings never change; the phase stays within
    /// `Running` and `Terminated`.
    pub fn handle(&mut self, event: HostEvent) -> (r: HostAction)
        requires
            old(self).phase == HostPhase::Running || old(self).phase == HostPhase::Terminated,
            old(self).well_formed(),
        ensures
            final(self).well_formed(),
            final(self).windows_created == old(self).windows_created,
            final(self).settings == old(self).settings,
            final(self).phase == HostPhase::Running || final(self).phase == HostPhase::Terminated,
            loop_state_of(final(self).phase) == next_state(loop_state_of(old(self).phase), event),
            r == action_for(loop_state_of(old(self).phase), event),
    {
        let state = match self.phase {
            HostPhase::Terminated => LoopState::Terminated,
            _ => LoopState::Running,
        };
        let (next, action) = handle_event(state, event);
        match next {
            LoopState::Terminated => {
                self.phase = HostPhase::Terminated;
            },
            LoopState::Running => {
            },
        }
        action
    }
}

} // verus!
