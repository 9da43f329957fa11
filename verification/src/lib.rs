//! A cross-platform taskbar indicator: one abstract state (progress value,
//! progress visibility, attention flag) kept consistent across the native
//! facilities of each desktop.
//!
//! The crate verifies the state-synchronization core. Progress is carried as
//! a fixed-point fraction: an integer count of `1/MAX_PROGRESS` units, so
//! that `MAX_PROGRESS` units stand for a full bar. The embedding shell glue
//! converts between this representation and whatever the native side wants
//! (a floating-point fraction on the desktop bus, the scaled integer that
//! the Windows shell takes directly).
//!
//! All bus and native calls are fire-and-forget publishes performed by the
//! embedder; the types here record exactly what must be on the wire, and the
//! contracts pin that record down.

use vstd::prelude::*;

pub mod linux;
pub mod windows;

verus! {

/// Number of fixed-point units in a full progress bar. A fraction `f` in
/// `[0.0, 1.0]` is represented as `f * MAX_PROGRESS` rounded to an integer,
/// giving five significant digits of resolution.
pub const MAX_PROGRESS: u64 = 100_000;

/// The discrete progress states a taskbar entry can be in.
///
/// `Paused` and `Error` have first-class support only on Windows; every
/// other platform treats them as `Normal` (visible, determinate).
#[derive(Debug, Copy, Clone, PartialEq, Eq, Structural)]
pub enum ProgressIndicatorState {
    /// The progress indicator is not visible.
    NoProgress,
    /// Activity without a known proportion (Windows only; elsewhere treated
    /// as `Normal`).
    Indeterminate,
    /// A visible, determinate progress bar.
    Normal,
    /// A visible bar drawn in the "paused" style (Windows only).
    Paused,
    /// A visible bar drawn in the "error" style (Windows only).
    Error,
}

/// Errors surfaced to callers of the fallible indicator operations.
#[derive(Debug, Copy, Clone, PartialEq, Eq, Structural)]
pub enum IndicatorError {
    /// The session bus connection needed by the Unity-compatible protocol
    /// could not be established.
    BusConnection,
}

/// The fixed-point fraction `fraction` clamped into `[0, MAX_PROGRESS]`.
pub open spec fn clamped_progress(fraction: int) -> int {
    if fraction < 0 {
        0
    } else if fraction > MAX_PROGRESS {
        MAX_PROGRESS as int
    } else {
        fraction
    }
}

/// Clamps a fixed-point fraction into `[0, MAX_PROGRESS]`, taking values
/// outside the range to the nearest boundary.
pub fn clamp_progress(fraction: i64) -> (clamped: u64)
    ensures
        clamped == clamped_progress(fraction as int),
        clamped <= MAX_PROGRESS,
{
    if fraction < 0 {
        0
    } else if fraction > 100_000 {
        MAX_PROGRESS
    } else {
        fraction as u64
    }
}

/// Clamping takes every fraction outside `[0, MAX_PROGRESS]` to the nearest
/// boundary and leaves every fraction inside the range unchanged.
pub proof fn lemma_clamp_to_nearest_boundary(fraction: int)
    ensures
        0 <= clamped_progress(fraction) <= MAX_PROGRESS,
        fraction < 0 ==> clamped_progress(fraction) == 0,
        fraction > MAX_PROGRESS ==> clamped_progress(fraction) == MAX_PROGRESS,
        0 <= fraction <= MAX_PROGRESS ==> clamped_progress(fraction) == fraction,
{
}

/// The one indicator of a session, bound 1:1 to a window for its lifetime.
///
/// It forwards every call unchanged to the platform indicator it owns — the
/// desktop-bus indicator of this build's platform. (The Windows mapping and
/// coalescing core stands on its own in the `windows` module for embedders
/// of that shell.) The interface performs no internal locking: a caller is
/// expected to hold exclusive access across a call.
pub struct TaskbarInterface {
    /// The platform indicator every call is forwarded to.
    pub platform: linux::TaskbarIndicator,
}

impl TaskbarInterface {
    /// Builds the interface around a fresh platform indicator.
    /// Construction never hard-fails here: `launcher_bound` is the outcome
    /// of the launcher discovery the embedding glue ran for the window
    /// handle, and a failed bind only leaves that provider absent.
    pub fn new(launcher_bound: bool) -> (interface: Self)
        ensures
            interface.platform == linux::TaskbarIndicator::spec_new(launcher_bound),
            interface.platform.wf(),
    {
        TaskbarInterface { platform: linux::TaskbarIndicator::new(launcher_bound) }
    }

    /// Builder-style variant of `set_unity_app_uri`: hands the interface
    /// back reconfigured, or surfaces the connection error.
    pub fn unity_app_uri(self, uri: String, bus_available: bool) -> (result: Result<
        Self,
        IndicatorError,
    >)
        requires
            self.platform.wf(),
        ensures
            bus_available ==> (result matches Ok(interface) && interface.platform
                == linux::TaskbarIndicator::spec_attach_unity(self.platform, uri)
                && interface.platform.wf()),
            !bus_available ==> result == Result::<Self, IndicatorError>::Err(
                IndicatorError::BusConnection,
            ),
    {
        let mut interface = self;
        match interface.set_unity_app_uri(uri, bus_available) {
            Ok(()) => Ok(interface),
            Err(error) => Err(error),
        }
    }

    /// Attaches (or replaces) the Unity-compatible manager for `uri`
    /// (format `application://<desktop-file-id>`), seeded with the current
    /// state. `bus_available` is the outcome of the session-bus connection
    /// the embedding glue attempted; on failure the prior state — old
    /// manager included — is preserved unchanged and the error surfaced.
    pub fn set_unity_app_uri(&mut self, uri: String, bus_available: bool) -> (result: Result<
        (),
        IndicatorError,
    >)
        requires
            old(self).platform.wf(),
        ensures
            final(self).platform.wf(),
            bus_available ==> result is Ok && final(self).platform
                == linux::TaskbarIndicator::spec_attach_unity(old(self).platform, uri),
            !bus_available ==> result == Result::<(), IndicatorError>::Err(
                IndicatorError::BusConnection,
            ) && *final(self) == *old(self),
    {
        self.platform.set_unity_app_uri(uri, bus_available)
    }

    /// Changes the indicated progress proportion, clamping the fixed-point
    /// fraction into `[0, MAX_PROGRESS]`; as a side effect the progress
    /// indicator becomes visible and determinate.
    pub fn set_progress(&mut self, fraction: i64)
        requires
            old(self).platform.wf(),
        ensures
            final(self).platform == linux::TaskbarIndicator::spec_set_progress(
                old(self).platform,
                fraction as int,
            ),
            final(self).platform.wf(),
    {
        self.platform.set_progress(fraction)
    }

    /// Changes the progress indicator state.
    pub fn set_progress_state(&mut self, state: ProgressIndicatorState)
        requires
            old(self).platform.wf(),
        ensures
            final(self).platform == linux::TaskbarIndicator::spec_set_progress_state(
                old(self).platform,
                state,
            ),
            final(self).platform.wf(),
    {
        self.platform.set_progress_state(state)
    }

    /// Highlights the app in the taskbar, or withdraws the highlight.
    pub fn needs_attention(&mut self, needs_attention: bool)
        requires
            old(self).platform.wf(),
        ensures
            final(self).platform == linux::TaskbarIndicator::spec_needs_attention(
                old(self).platform,
                needs_attention,
            ),
            final(self).platform.wf(),
    {
        self.platform.needs_attention(needs_attention)
    }
}

} // verus!
