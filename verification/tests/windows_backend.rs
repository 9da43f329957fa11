use taskbar_interface::windows::TaskbarIndicator;
use taskbar_interface::windows::{
    FLASHW_STOP, FLASHW_TIMER, FLASHW_TRAY, TBPF_ERROR, TBPF_INDETERMINATE, TBPF_NOPROGRESS,
    TBPF_NORMAL, TBPF_PAUSED,
};
use taskbar_interface::windows::native_progress_flag;
use taskbar_interface::ProgressIndicatorState;

#[test]
fn fresh_indicator_shows_no_progress() {
    let indicator = TaskbarIndicator::new();
    assert_eq!(indicator.progress, 0);
    assert_eq!(indicator.state, ProgressIndicatorState::NoProgress);
}

#[test]
fn each_state_maps_to_its_own_native_flag() {
    let flags = [
        native_progress_flag(ProgressIndicatorState::NoProgress),
        native_progress_flag(ProgressIndicatorState::Indeterminate),
        native_progress_flag(ProgressIndicatorState::Normal),
        native_progress_flag(ProgressIndicatorState::Paused),
        native_progress_flag(ProgressIndicatorState::Error),
    ];
    assert_eq!(
        flags,
        [
            TBPF_NOPROGRESS,
            TBPF_INDETERMINATE,
            TBPF_NORMAL,
            TBPF_PAUSED,
            TBPF_ERROR
        ]
    );
    for i in 0..flags.len() {
        for j in 0..flags.len() {
            if i != j {
                assert_ne!(flags[i], flags[j]);
            }
        }
    }
}

#[test]
fn identical_progress_updates_are_coalesced() {
    let mut indicator = TaskbarIndicator::new();
    assert_eq!(indicator.set_progress(50_000), Some(50_000));
    assert_eq!(indicator.set_progress(50_000), None);
    assert_eq!(indicator.set_progress(50_001), Some(50_001));
}

#[test]
fn sub_resolution_clamped_updates_are_coalesced() {
    let mut indicator = TaskbarIndicator::new();
    assert_eq!(indicator.set_progress(-30_000), None);
    assert_eq!(indicator.set_progress(100_000), Some(100_000));
    assert_eq!(indicator.set_progress(170_000), None);
    assert_eq!(indicator.progress, 100_000);
}

#[test]
fn entering_an_active_state_repushes_stored_progress() {
    let mut indicator = TaskbarIndicator::new();
    indicator.set_progress(30_000);
    let change = indicator.set_progress_state(ProgressIndicatorState::Paused);
    assert_eq!(change.flag, TBPF_PAUSED);
    assert_eq!(change.repush, Some(30_000));
    let change = indicator.set_progress_state(ProgressIndicatorState::Error);
    assert_eq!(change.flag, TBPF_ERROR);
    assert_eq!(change.repush, Some(30_000));
    let change = indicator.set_progress_state(ProgressIndicatorState::Normal);
    assert_eq!(change.flag, TBPF_NORMAL);
    assert_eq!(change.repush, Some(30_000));
}

#[test]
fn entering_an_inactive_state_pushes_no_progress() {
    let mut indicator = TaskbarIndicator::new();
    indicator.set_progress(30_000);
    let change = indicator.set_progress_state(ProgressIndicatorState::NoProgress);
    assert_eq!(change.flag, TBPF_NOPROGRESS);
    assert_eq!(change.repush, None);
    let change = indicator.set_progress_state(ProgressIndicatorState::Indeterminate);
    assert_eq!(change.flag, TBPF_INDETERMINATE);
    assert_eq!(change.repush, None);
}

#[test]
fn state_transitions_are_recorded() {
    let mut indicator = TaskbarIndicator::new();
    indicator.set_progress_state(ProgressIndicatorState::Error);
    assert_eq!(indicator.state, ProgressIndicatorState::Error);
    indicator.set_progress(10_000);
    assert_eq!(indicator.state, ProgressIndicatorState::Error);
}

#[test]
fn attention_requests_map_to_flash_flags() {
    let mut indicator = TaskbarIndicator::new();
    assert_eq!(indicator.needs_attention(true), FLASHW_TIMER | FLASHW_TRAY);
    assert_eq!(indicator.needs_attention(false), FLASHW_STOP);
    assert_eq!(indicator.progress, 0);
    assert_eq!(indicator.state, ProgressIndicatorState::NoProgress);
}
