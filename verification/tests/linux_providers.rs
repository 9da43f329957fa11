use taskbar_interface::linux::LauncherBusManager;
use taskbar_interface::linux::TaskbarIndicator;
use taskbar_interface::linux::UnityManager;
use taskbar_interface::ProgressIndicatorState;

#[test]
fn launcher_manager_starts_blank() {
    let manager = LauncherBusManager::new();
    assert_eq!(manager.progress, 0);
    assert!(!manager.progress_visible);
    assert!(!manager.urgent);
}

#[test]
fn launcher_manager_records_each_setter() {
    let mut manager = LauncherBusManager::new();
    manager.set_progress(12_345);
    manager.set_progress_visible(true);
    manager.needs_attention(true);
    assert_eq!(manager.progress, 12_345);
    assert!(manager.progress_visible);
    assert!(manager.urgent);
}

#[test]
fn unity_manager_keeps_its_uri() {
    let mut manager = UnityManager::new("application://firefox.desktop".to_string());
    assert_eq!(manager.app_uri, "application://firefox.desktop");
    assert_eq!(manager.progress, 0);
    assert!(!manager.progress_visible);
    assert!(!manager.urgent);
    manager.set_progress(99_999);
    manager.set_progress_visible(true);
    manager.needs_attention(false);
    assert_eq!(manager.app_uri, "application://firefox.desktop");
    assert_eq!(manager.progress, 99_999);
    assert!(manager.progress_visible);
    assert!(!manager.urgent);
}

#[test]
fn paused_and_error_collapse_to_visible() {
    let mut indicator = TaskbarIndicator::new(true);
    indicator.set_progress_state(ProgressIndicatorState::Paused);
    assert!(indicator.progress_visible);
    indicator.set_progress_state(ProgressIndicatorState::Error);
    assert!(indicator.progress_visible);
    indicator.set_progress_state(ProgressIndicatorState::Normal);
    assert!(indicator.progress_visible);
}

#[test]
fn no_progress_and_indeterminate_collapse_to_hidden() {
    let mut indicator = TaskbarIndicator::new(true);
    indicator.set_progress_state(ProgressIndicatorState::Normal);
    indicator.set_progress_state(ProgressIndicatorState::NoProgress);
    assert!(!indicator.progress_visible);
    indicator.set_progress_state(ProgressIndicatorState::Indeterminate);
    assert!(!indicator.progress_visible);
}

#[test]
fn fan_out_keeps_both_providers_in_step() {
    let mut indicator = TaskbarIndicator::new(true);
    let attached = indicator.set_unity_app_uri("application://myapp.desktop".to_string(), true);
    assert!(attached.is_ok());
    indicator.set_progress(33_000);
    indicator.needs_attention(true);
    let launcher = indicator.launcher.as_ref().unwrap();
    let unity = indicator.unity.as_ref().unwrap();
    assert_eq!(launcher.progress, 33_000);
    assert_eq!(unity.progress, 33_000);
    assert!(launcher.progress_visible && unity.progress_visible);
    assert!(launcher.urgent && unity.urgent);
    indicator.set_progress_state(ProgressIndicatorState::NoProgress);
    let launcher = indicator.launcher.as_ref().unwrap();
    let unity = indicator.unity.as_ref().unwrap();
    assert!(!launcher.progress_visible && !unity.progress_visible);
}

#[test]
fn replacing_unity_manager_reseeds_current_state() {
    let mut indicator = TaskbarIndicator::new(false);
    let first = indicator.set_unity_app_uri("application://one.desktop".to_string(), true);
    assert!(first.is_ok());
    indicator.set_progress(80_000);
    let second = indicator.set_unity_app_uri("application://two.desktop".to_string(), true);
    assert!(second.is_ok());
    let unity = indicator.unity.as_ref().unwrap();
    assert_eq!(unity.app_uri, "application://two.desktop");
    assert_eq!(unity.progress, 80_000);
    assert!(unity.progress_visible);
}
