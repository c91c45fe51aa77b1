use sonora_core::environment::{
    build_environment_health, permission_and_notes_for_os, session_type_from_env, PermissionState,
    SessionType,
};

#[test]
fn maps_session_type_values() {
    assert_eq!(session_type_from_env(Some("x11")), SessionType::X11);
    assert_eq!(session_type_from_env(Some("X11")), SessionType::X11);
    assert_eq!(session_type_from_env(Some("wayland")), SessionType::Wayland);
    assert_eq!(session_type_from_env(None), SessionType::Unknown);
}

#[test]
fn linux_x11_marked_ready() {
    let (permission, notes) = permission_and_notes_for_os("linux", SessionType::X11);
    assert_eq!(permission, PermissionState::Ready);
    assert!(!notes.is_empty());
}

#[test]
fn linux_non_x11_needs_setup() {
    let (permission, notes) = permission_and_notes_for_os("linux", SessionType::Wayland);
    assert_eq!(permission, PermissionState::NeedsSetup);
    assert!(!notes.is_empty());
}

#[test]
fn wayland_health_carries_extra_note() {
    let health = build_environment_health("linux", SessionType::Wayland);
    assert_eq!(health.os, "linux");
    assert_eq!(health.session_type, SessionType::Wayland);
    assert_eq!(health.input_injection_permission, PermissionState::NeedsSetup);
    assert_eq!(health.notes.len(), 2);
}
