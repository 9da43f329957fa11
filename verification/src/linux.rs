//! The Linux side of the indicator: one abstract state triple fanned out to
//! up to two desktop-bus providers.
//!
//! Each provider is a pure downstream mirror of the indicator's triple. The
//! manager types record the last state handed to their protocol; the
//! embedding glue publishes that record on the bus (both protocols are
//! stateless, fire-and-forget broadcasts, so republishing is always safe).

use vstd::prelude::*;

use crate::IndicatorError;
use crate::MAX_PROGRESS;
use crate::ProgressIndicatorState;
use crate::clamp_progress;
use crate::clamped_progress;

verus! {

/// Mirror of the state advertised on a launcher entry addressed by the
/// window handle (the handle itself lives with the discovery glue, which
/// either binds a launcher entry or reports that none is present).
pub struct LauncherBusManager {
    /// Fixed-point progress fraction, in `[0, MAX_PROGRESS]`.
    pub progress: u64,
    /// Whether the progress bar is shown on the launcher entry.
    pub progress_visible: bool,
    /// Whether the entry is flagged urgent.
    pub urgent: bool,
}

impl LauncherBusManager {
    pub open spec fn wf(self) -> bool {
        self.progress <= MAX_PROGRESS
    }

    /// A freshly bound launcher entry advertises no progress and no urgency.
    pub fn new() -> (manager: Self)
        ensures
            manager == (LauncherBusManager { progress: 0, progress_visible: false, urgent: false }),
    {
        LauncherBusManager { progress: 0, progress_visible: false, urgent: false }
    }

    pub fn set_progress(&mut self, progress: u64)
        requires
            progress <= MAX_PROGRESS,
        ensures
            *final(self) == (LauncherBusManager { progress, ..*old(self) }),
    {
        self.progress = progress;
    }

    pub fn set_progress_visible(&mut self, visible: bool)
        ensures
            *final(self) == (LauncherBusManager { progress_visible: visible, ..*old(self) }),
    {
        self.progress_visible = visible;
    }

    pub fn needs_attention(&mut self, urgent: bool)
        ensures
            *final(self) == (LauncherBusManager { urgent, ..*old(self) }),
    {
        self.urgent = urgent;
    }
}

/// Mirror of the state broadcast under the Unity-compatible launcher
/// protocol. That protocol has no handle-based addressing: the application
/// URI (`application://<desktop-file-id>`) is the correlation key, fixed at
/// construction.
pub struct UnityManager {
    /// The application URI the broadcasts are keyed by.
    pub app_uri: String,
    /// Fixed-point progress fraction, in `[0, MAX_PROGRESS]`.
    pub progress: u64,
    /// Whether the progress bar is shown.
    pub progress_visible: bool,
    /// Whether the entry is flagged urgent.
    pub urgent: bool,
}

impl UnityManager {
    pub open spec fn wf(self) -> bool {
        self.progress <= MAX_PROGRESS
    }

    /// A fresh manager for `app_uri`, advertising no progress and no
    /// urgency until it is seeded.
    pub fn new(app_uri: String) -> (manager: Self)
        ensures
            manager == (UnityManager { app_uri, progress: 0, progress_visible: false, urgent: false }),
    {
        UnityManager { app_uri, progress: 0, progress_visible: false, urgent: false }
    }

    pub fn set_progress(&mut self, progress: u64)
        requires
            progress <= MAX_PROGRESS,
        ensures
            *final(self) == (UnityManager { progress, ..*old(self) }),
    {
        self.progress = progress;
    }

    pub fn set_progress_visible(&mut self, visible: bool)
        ensures
            *final(self) == (UnityManager { progress_visible: visible, ..*old(self) }),
    {
        self.progress_visible = visible;
    }

    pub fn needs_attention(&mut self, urgent: bool)
        ensures
            *final(self) == (UnityManager { urgent, ..*old(self) }),
    {
        self.urgent = urgent;
    }
}

/// Whether `state` shows a progress bar here. The desktop-bus protocols
/// carry only a visibility flag, so the richer Windows-only states collapse
/// onto it: everything but `NoProgress` and `Indeterminate` is visible.
pub open spec fn spec_state_visible(state: ProgressIndicatorState) -> bool {
    match state {
        ProgressIndicatorState::NoProgress => false,
        ProgressIndicatorState::Indeterminate => false,
        ProgressIndicatorState::Normal => true,
        ProgressIndicatorState::Paused => true,
        ProgressIndicatorState::Error => true,
    }
}

/// `Paused` and `Error` have no discrete representation on the desktop bus:
/// they collapse to the same visibility as `Normal`, namely visible.
pub proof fn lemma_visibility_collapse()
    ensures
        spec_state_visible(ProgressIndicatorState::Paused) == spec_state_visible(
            ProgressIndicatorState::Normal,
        ),
        spec_state_visible(ProgressIndicatorState::Error) == spec_state_visible(
            ProgressIndicatorState::Normal,
        ),
        spec_state_visible(ProgressIndicatorState::Normal),
{
}

/// The Linux platform indicator: the abstract state triple, together with
/// the providers currently mirroring it.
///
/// The possible providers are fixed and small — a launcher-bus entry bound
/// to the window handle, and a Unity-compatible broadcaster keyed by an
/// application URI — so they are held as one optional slot each, not as a
/// dynamic observer list. Either slot may be absent without global failure.
pub struct TaskbarIndicator {
    /// The launcher-bus mirror, absent when no compatible launcher bound.
    pub launcher: Option<LauncherBusManager>,
    /// The Unity-compatible mirror, absent until an application URI is
    /// supplied.
    pub unity: Option<UnityManager>,
    /// Fixed-point progress fraction, in `[0, MAX_PROGRESS]`.
    pub progress: u64,
    /// Whether the progress bar is shown.
    pub progress_visible: bool,
    /// Whether the window asks for the user's attention.
    pub needs_attention: bool,
}

impl TaskbarIndicator {
    /// Every active provider reflects exactly the indicator's triple; no
    /// provider is ever behind after a call returns.
    pub open spec fn synced(self) -> bool {
        &&& (self.launcher matches Some(launcher) ==> launcher.progress == self.progress
            && launcher.progress_visible == self.progress_visible && launcher.urgent
            == self.needs_attention)
        &&& (self.unity matches Some(unity) ==> unity.progress == self.progress
            && unity.progress_visible == self.progress_visible && unity.urgent
            == self.needs_attention)
    }

    pub open spec fn wf(self) -> bool {
        &&& self.progress <= MAX_PROGRESS
        &&& (self.launcher matches Some(launcher) ==> launcher.wf())
        &&& (self.unity matches Some(unity) ==> unity.wf())
        &&& self.synced()
    }

    /// The indicator as first constructed: a blank triple, the launcher
    /// slot filled exactly when the discovery glue bound one, no Unity
    /// manager yet.
    pub open spec fn spec_new(launcher_bound: bool) -> Self {
        TaskbarIndicator {
            launcher: if launcher_bound {
                Some(LauncherBusManager { progress: 0, progress_visible: false, urgent: false })
            } else {
                None
            },
            unity: None,
            progress: 0,
            progress_visible: false,
            needs_attention: false,
        }
    }

    /// `state` with both of its active providers re-aligned to its triple.
    pub open spec fn spec_publish(state: Self) -> Self {
        TaskbarIndicator {
            launcher: match state.launcher {
                Some(launcher) => Some(
                    LauncherBusManager {
                        progress: state.progress,
                        progress_visible: state.progress_visible,
                        urgent: state.needs_attention,
                    },
                ),
                None => None,
            },
            unity: match state.unity {
                Some(unity) => Some(
                    UnityManager {
                        app_uri: unity.app_uri,
                        progress: state.progress,
                        progress_visible: state.progress_visible,
                        urgent: state.needs_attention,
                    },
                ),
                None => None,
            },
            ..state
        }
    }

    /// The state after a progress update: the fraction clamped and stored,
    /// visibility forced on, and every active provider re-aligned.
    pub open spec fn spec_set_progress(state: Self, fraction: int) -> Self {
        Self::spec_publish(
            TaskbarIndicator {
                progress: clamped_progress(fraction) as u64,
                progress_visible: true,
                ..state
            },
        )
    }

    /// The state after a progress-state change: the state collapsed to its
    /// visibility, and every active provider re-aligned.
    pub open spec fn spec_set_progress_state(state: Self, s: ProgressIndicatorState) -> Self {
        Self::spec_publish(
            TaskbarIndicator { progress_visible: spec_state_visible(s), ..state },
        )
    }

    /// The state after an attention change: the flag stored, and every
    /// active provider re-aligned.
    pub open spec fn spec_needs_attention(state: Self, urgent: bool) -> Self {
        Self::spec_publish(TaskbarIndicator { needs_attention: urgent, ..state })
    }

    /// The state after a Unity manager keyed by `app_uri` is attached: the
    /// new manager is seeded with the indicator's current triple, so a
    /// late-joining provider is never left at its blank defaults; nothing
    /// else changes.
    pub open spec fn spec_attach_unity(state: Self, app_uri: String) -> Self {
        TaskbarIndicator {
            unity: Some(
                UnityManager {
                    app_uri,
                    progress: state.progress,
                    progress_visible: state.progress_visible,
                    urgent: state.needs_attention,
                },
            ),
            ..state
        }
    }

    /// Runtime check of the invariant the contracts maintain: the fraction
    /// in range and every active provider in step with the triple. Embedding
    /// glue can guard its calls with this before handing the indicator on.
    pub fn is_well_formed(&self) -> (well_formed: bool)
        ensures
            well_formed == self.wf(),
    {
        let in_range = self.progress <= MAX_PROGRESS;
        let launcher_in_step = match &self.launcher {
            Some(launcher) => launcher.progress == self.progress && launcher.progress_visible
                == self.progress_visible && launcher.urgent == self.needs_attention,
            None => true,
        };
        let unity_in_step = match &self.unity {
            Some(unity) => unity.progress == self.progress && unity.progress_visible
                == self.progress_visible && unity.urgent == self.needs_attention,
            None => true,
        };
        in_range && launcher_in_step && unity_in_step
    }

    /// Builds the indicator. Construction never hard-fails: when the
    /// discovery glue found no compatible launcher (`launcher_bound` false)
    /// the indicator simply proceeds with that provider absent.
    pub fn new(launcher_bound: bool) -> (indicator: Self)
        ensures
            indicator == Self::spec_new(launcher_bound),
            indicator.wf(),
    {
        TaskbarIndicator {
            launcher: if launcher_bound {
                Some(LauncherBusManager::new())
            } else {
                None
            },
            unity: None,
            progress: 0,
            progress_visible: false,
            needs_attention: false,
        }
    }

    /// Attaches (or replaces) the Unity-compatible manager, seeding it with
    /// the current triple. `bus_available` is the outcome of the session-bus
    /// connection the embedding glue attempted for this URI: when it failed,
    /// the error is surfaced and the indicator — including any previously
    /// attached manager — is left completely unchanged.
    pub fn set_unity_app_uri(&mut self, uri: String, bus_available: bool) -> (result: Result<
        (),
        IndicatorError,
    >)
        requires
            old(self).wf(),
        ensures
            final(self).wf(),
            bus_available ==> result is Ok && *final(self) == Self::spec_attach_unity(
                *old(self),
                uri,
            ),
            !bus_available ==> result == Result::<(), IndicatorError>::Err(
                IndicatorError::BusConnection,
            ) && *final(self) == *old(self),
    {
        if !bus_available {
            return Err(IndicatorError::BusConnection);
        }
        let mut unity = UnityManager::new(uri);
        unity.set_progress(self.progress);
        unity.set_progress_visible(self.progress_visible);
        unity.needs_attention(self.needs_attention);
        self.unity = Some(unity);
        Ok(())
    }

    /// Builder-style variant of `set_unity_app_uri`: consumes the indicator
    /// and hands it back reconfigured, or surfaces the connection error.
    pub fn unity_app_uri(self, uri: String, bus_available: bool) -> (result: Result<
        Self,
        IndicatorError,
    >)
        requires
            self.wf(),
        ensures
            bus_available ==> (result matches Ok(indicator) && indicator
                == Self::spec_attach_unity(self, uri) && indicator.wf()),
            !bus_available ==> result == Result::<Self, IndicatorError>::Err(
                IndicatorError::BusConnection,
            ),
    {
        let mut indicator = self;
        match indicator.set_unity_app_uri(uri, bus_available) {
            Ok(()) => Ok(indicator),
            Err(error) => Err(error),
        }
    }

    /// Stores the clamped fraction and republishes it to every active
    /// provider. Setting a numeric progress always makes the bar visible
    /// and determinate first, matching the documented contract.
    pub fn set_progress(&mut self, fraction: i64)
        requires
            old(self).wf(),
        ensures
            *final(self) == Self::spec_set_progress(*old(self), fraction as int),
            final(self).wf(),
    {
        self.set_progress_state(ProgressIndicatorState::Normal);
        let progress = clamp_progress(fraction);
        self.progress = progress;
        if let Some(launcher) = &mut self.launcher {
            launcher.set_progress(progress);
        }
        if let Some(unity) = &mut self.unity {
            unity.set_progress(progress);
        }
    }

    /// Collapses `state` to its visibility and republishes that to every
    /// active provider; this is the sole state-machine transformation on
    /// this platform.
    pub fn set_progress_state(&mut self, state: ProgressIndicatorState)
        requires
            old(self).wf(),
        ensures
            *final(self) == Self::spec_set_progress_state(*old(self), state),
            final(self).wf(),
    {
        let visible = match state {
            ProgressIndicatorState::NoProgress => false,
            ProgressIndicatorState::Indeterminate => false,
            _ => true,
        };
        self.progress_visible = visible;
        if let Some(launcher) = &mut self.launcher {
            launcher.set_progress_visible(visible);
        }
        if let Some(unity) = &mut self.unity {
            unity.set_progress_visible(visible);
        }
    }

    /// A progress update always forces the visible, determinate state: in
    /// whatever state the indicator was, the bar is visible afterwards.
    pub proof fn lemma_set_progress_forces_visible(state: Self, fraction: int)
        ensures
            Self::spec_set_progress(state, fraction).progress_visible,
    {
    }

    /// A progress update is idempotent: a second update with the same
    /// fraction leaves the whole observable state — triple and provider
    /// mirrors alike — exactly as the first left it.
    pub proof fn lemma_set_progress_idempotent(state: Self, fraction: int)
        ensures
            Self::spec_set_progress(Self::spec_set_progress(state, fraction), fraction)
                == Self::spec_set_progress(state, fraction),
    {
    }

    /// A late-joining Unity manager is seeded with the indicator's current
    /// triple — never with its blank defaults — and attaching it changes
    /// nothing else about the indicator.
    pub proof fn lemma_attach_seeds_current_state(state: Self, app_uri: String)
        ensures
            Self::spec_attach_unity(state, app_uri).unity matches Some(unity)
                && unity.progress == state.progress
                && unity.progress_visible == state.progress_visible
                && unity.urgent == state.needs_attention
                && unity.app_uri == app_uri,
            Self::spec_attach_unity(state, app_uri).launcher == state.launcher,
            Self::spec_attach_unity(state, app_uri).progress == state.progress,
            Self::spec_attach_unity(state, app_uri).progress_visible == state.progress_visible,
            Self::spec_attach_unity(state, app_uri).needs_attention == state.needs_attention,
    {
    }

    /// Stores the attention flag and republishes it unconditionally to
    /// every active provider.
    pub fn needs_attention(&mut self, needs_attention: bool)
        requires
            old(self).wf(),
        ensures
            *final(self) == Self::spec_needs_attention(*old(self), needs_attention),
            final(self).wf(),
    {
        self.needs_attention = needs_attention;
        if let Some(launcher) = &mut self.launcher {
            launcher.needs_attention(needs_attention);
        }
        if let Some(unity) = &mut self.unity {
            unity.needs_attention(needs_attention);
        }
    }
}

} // verus!
