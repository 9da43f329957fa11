//! The Windows side of the indicator: mapping the abstract state onto the
//! shell's taskbar-list calls, and coalescing redundant progress pushes.

use vstd::prelude::*;

use crate::MAX_PROGRESS;
use crate::ProgressIndicatorState;
use crate::clamp_progress;
use crate::clamped_progress;

verus! {

/// Native taskbar progress flag: no progress bar shown.
pub const TBPF_NOPROGRESS: u32 = 0;

/// Native taskbar progress flag: indeterminate (marquee) bar.
pub const TBPF_INDETERMINATE: u32 = 1;

/// Native taskbar progress flag: determinate bar in the normal style.
pub const TBPF_NORMAL: u32 = 2;

/// Native taskbar progress flag: determinate bar in the error style.
pub const TBPF_ERROR: u32 = 4;

/// Native taskbar progress flag: determinate bar in the paused style.
pub const TBPF_PAUSED: u32 = 8;

/// Native window-flash flag: stop flashing.
pub const FLASHW_STOP: u32 = 0;

/// Native window-flash flag: flash the taskbar button.
pub const FLASHW_TRAY: u32 = 2;

/// Native window-flash flag: keep flashing until stopped.
pub const FLASHW_TIMER: u32 = 4;

/// The native progress flag that stands for `state`.
pub open spec fn spec_native_flag(state: ProgressIndicatorState) -> u32 {
    match state {
        ProgressIndicatorState::NoProgress => TBPF_NOPROGRESS,
        ProgressIndicatorState::Indeterminate => TBPF_INDETERMINATE,
        ProgressIndicatorState::Normal => TBPF_NORMAL,
        ProgressIndicatorState::Paused => TBPF_PAUSED,
        ProgressIndicatorState::Error => TBPF_ERROR,
    }
}

/// Maps each of the five abstract states to its native progress flag.
pub fn native_progress_flag(state: ProgressIndicatorState) -> (flag: u32)
    ensures
        flag == spec_native_flag(state),
{
    match state {
        ProgressIndicatorState::NoProgress => TBPF_NOPROGRESS,
        ProgressIndicatorState::Indeterminate => TBPF_INDETERMINATE,
        ProgressIndicatorState::Normal => TBPF_NORMAL,
        ProgressIndicatorState::Paused => TBPF_PAUSED,
        ProgressIndicatorState::Error => TBPF_ERROR,
    }
}

/// The state-to-flag mapping is injective: distinct abstract states never
/// share a native flag, so the five flags cover the enumeration exactly.
pub proof fn lemma_native_flag_unique(a: ProgressIndicatorState, b: ProgressIndicatorState)
    ensures
        spec_native_flag(a) == spec_native_flag(b) ==> a == b,
{
}

/// Every abstract state maps to one of the five native flags.
pub proof fn lemma_native_flag_total(state: ProgressIndicatorState)
    ensures
        spec_native_flag(state) == TBPF_NOPROGRESS
            || spec_native_flag(state) == TBPF_INDETERMINATE
            || spec_native_flag(state) == TBPF_NORMAL
            || spec_native_flag(state) == TBPF_PAUSED
            || spec_native_flag(state) == TBPF_ERROR,
{
}

/// Whether `state` draws a determinate bar, so that the native side needs
/// the current progress value re-pushed right after entering it (the shell
/// discards a stale value across such a transition).
pub open spec fn spec_is_active(state: ProgressIndicatorState) -> bool {
    match state {
        ProgressIndicatorState::Normal => true,
        ProgressIndicatorState::Paused => true,
        ProgressIndicatorState::Error => true,
        ProgressIndicatorState::NoProgress => false,
        ProgressIndicatorState::Indeterminate => false,
    }
}

/// The flash-request flags for an attention change: a continuous
/// flash-until-stopped request on `true`, an explicit stop on `false`.
pub open spec fn spec_flash_flags(urgent: bool) -> u32 {
    if urgent {
        FLASHW_TIMER | FLASHW_TRAY
    } else {
        FLASHW_STOP
    }
}

/// The value a progress update must push natively: the clamped fraction if
/// it differs from the value already pushed, nothing otherwise.
pub open spec fn spec_progress_push(prior: u64, fraction: int) -> Option<u64> {
    if clamped_progress(fraction) == prior {
        None
    } else {
        Some(clamped_progress(fraction) as u64)
    }
}

/// A progress update applied twice with the same fraction pushes natively
/// at most once: once the first update's clamped value is stored, the
/// second is coalesced, whatever value had been pushed before.
pub proof fn lemma_progress_push_coalesced(fraction: int)
    ensures
        spec_progress_push(clamped_progress(fraction) as u64, fraction) is None,
{
}

/// The native calls a progress-state change asks the embedder to make: one
/// unconditional state call with `flag`, followed — exactly when the new
/// state is an active one — by one progress push carrying `repush`.
pub struct StateChange {
    /// The native progress flag to hand to the state call.
    pub flag: u32,
    /// The stored progress value to push right after the state call, or
    /// `None` when the new state needs no re-push.
    pub repush: Option<u64>,
}

/// The Windows platform indicator: the last pushed scaled progress value
/// and the current native progress state.
///
/// The taskbar-list object itself is bound to the window handle by the
/// embedding glue; the methods here decide which native calls that glue
/// must make, and coalesce the redundant ones.
pub struct TaskbarIndicator {
    /// Last pushed fixed-point progress value, in `[0, MAX_PROGRESS]`.
    pub progress: u64,
    /// The progress state the taskbar was last put into. Transitions are
    /// caller-driven only.
    pub state: ProgressIndicatorState,
}

impl TaskbarIndicator {
    pub open spec fn wf(self) -> bool {
        self.progress <= MAX_PROGRESS
    }

    /// A freshly bound indicator: no progress shown, value zero.
    pub fn new() -> (indicator: Self)
        ensures
            indicator == (TaskbarIndicator {
                progress: 0,
                state: ProgressIndicatorState::NoProgress,
            }),
            indicator.wf(),
    {
        TaskbarIndicator { progress: 0, state: ProgressIndicatorState::NoProgress }
    }

    /// Clamps and stores the fraction, and returns the value to push
    /// natively — `None` exactly when the stored value is unchanged, so
    /// sub-resolution updates cost no native call. The stored value moves
    /// whether or not a push is owed, so it always reflects what was
    /// attempted.
    pub fn set_progress(&mut self, fraction: i64) -> (push: Option<u64>)
        requires
            old(self).wf(),
        ensures
            final(self).wf(),
            final(self).progress == clamped_progress(fraction as int),
            final(self).state == old(self).state,
            push == spec_progress_push(old(self).progress, fraction as int),
    {
        let progress = clamp_progress(fraction);
        if self.progress != progress {
            self.progress = progress;
            Some(progress)
        } else {
            None
        }
    }

    /// Records the new state and returns the native calls it owes: the
    /// state call is unconditional, and entering an active state owes
    /// exactly one re-push of the currently stored progress value (the
    /// shell ignores a stale value across such a transition).
    pub fn set_progress_state(&mut self, state: ProgressIndicatorState) -> (change: StateChange)
        requires
            old(self).wf(),
        ensures
            final(self).wf(),
            final(self).progress == old(self).progress,
            final(self).state == state,
            change.flag == spec_native_flag(state),
            spec_is_active(state) ==> change.repush == Some(old(self).progress),
            !spec_is_active(state) ==> change.repush is None,
    {
        let flag = native_progress_flag(state);
        self.state = state;
        let repush = match state {
            ProgressIndicatorState::Normal => Some(self.progress),
            ProgressIndicatorState::Paused => Some(self.progress),
            ProgressIndicatorState::Error => Some(self.progress),
            ProgressIndicatorState::NoProgress => None,
            ProgressIndicatorState::Indeterminate => None,
        };
        StateChange { flag, repush }
    }

    /// Returns the window-flash flags for the request: `true` asks for a
    /// continuous flash of the taskbar button until explicitly stopped (the
    /// shell itself cancels the flash when the window gains focus, so the
    /// flag is not sticky), `false` asks for an explicit stop. The
    /// indicator state is untouched.
    pub fn needs_attention(&mut self, needs_attention: bool) -> (flags: u32)
        ensures
            *final(self) == *old(self),
            flags == spec_flash_flags(needs_attention),
    {
        if needs_attention {
            FLASHW_TIMER | FLASHW_TRAY
        } else {
            FLASHW_STOP
        }
    }
}

} // verus!
