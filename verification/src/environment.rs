//! Session-environment classification: mapping the session-type variable
//! and operating-system name to an input-injection readiness verdict. The
//! host reads the actual environment and passes the values in.

use vstd::prelude::*;

use crate::text::{ascii_lower_spec, eq_ignore_ascii_case, str_eq, view_opt_str};

verus! {

/// The graphical session kind, as far as the environment reveals it.
#[derive(Debug, Clone, Copy, PartialEq, Eq, Structural)]
pub enum SessionType {
    X11,
    Wayland,
    Unknown,
}

/// Whether global input injection is expected to work as configured.
#[derive(Debug, Clone, Copy, PartialEq, Eq, Structural)]
pub enum PermissionState {
    Ready,
    NeedsSetup,
    Unknown,
}

/// The health report handed to collaborators for display.
#[derive(Debug, Clone, PartialEq, Eq)]
pub struct EnvironmentHealth {
    pub os: String,
    pub session_type: SessionType,
    pub input_injection_permission: PermissionState,
    pub notes: Vec<String>,
}

/// What [`session_type_from_env`] returns for a given session-type value.
pub open spec fn session_type_spec(value: Option<Seq<char>>) -> SessionType {
    match value {
        Some(v) => if ascii_lower_spec(v) == ascii_lower_spec("x11"@) {
            SessionType::X11
        } else if ascii_lower_spec(v) == ascii_lower_spec("wayland"@) {
            SessionType::Wayland
        } else {
            SessionType::Unknown
        },
        None => SessionType::Unknown,
    }
}

/// Classify the session-type environment value, case-insensitively.
pub fn session_type_from_env(value: Option<&str>) -> (r: SessionType)
    ensures
        r == session_type_spec(view_opt_str(value)),
{
    match value {
        Some(raw) => {
            if eq_ignore_ascii_case(raw, "x11") {
                SessionType::X11
            } else if eq_ignore_ascii_case(raw, "wayland") {
                SessionType::Wayland
            } else {
                SessionType::Unknown
            }
        },
        None => SessionType::Unknown,
    }
}

/// The permission verdict for an operating system and session type.
pub open spec fn permission_spec(os: Seq<char>, session_type: SessionType) -> PermissionState {
    if os == "macos"@ {
        PermissionState::NeedsSetup
    } else if os == "windows"@ {
        PermissionState::Unknown
    } else if os == "linux"@ {
        if session_type == SessionType::X11 {
            PermissionState::Ready
        } else {
            PermissionState::NeedsSetup
        }
    } else {
        PermissionState::Unknown
    }
}

/// Map the operating-system name and session type to an input-injection
/// permission verdict and one explanatory note.
pub fn permission_and_notes_for_os(os: &str, session_type: SessionType) -> (r: (
    PermissionState,
    Vec<String>,
))
    ensures
        r.0 == permission_spec(os@, session_type),
        r.1@.len() == 1,
{
    let mut notes: Vec<String> = Vec::new();
    if str_eq(os, "macos") {
        notes.push(
            String::from_str(
                "Grant Accessibility and Input Monitoring permissions for global input insertion.",
            ),
        );
        (PermissionState::NeedsSetup, notes)
    } else if str_eq(os, "windows") {
        notes.push(
            String::from_str(
                "Input injection can fail for elevated/protected apps; run with matching integrity level.",
            ),
        );
        (PermissionState::Unknown, notes)
    } else if str_eq(os, "linux") {
        if session_type == SessionType::X11 {
            notes.push(
                String::from_str("X11 session detected; global input path is supported in v1."),
            );
            (PermissionState::Ready, notes)
        } else {
            notes.push(
                String::from_str(
                    "Non-X11 session detected; switch to X11 for supported global insertion behavior.",
                ),
            );
            (PermissionState::NeedsSetup, notes)
        }
    } else {
        notes.push(String::from_str("Unsupported OS for guaranteed v1 behavior."));
        (PermissionState::Unknown, notes)
    }
}

/// Assemble the health report from the values the host read from the
/// environment: the permission verdict and notes for the platform, plus a
/// warning note when the session is Wayland.
pub fn build_environment_health(os: &str, session_type: SessionType) -> (r: EnvironmentHealth)
    ensures
        r.os@ == os@,
        r.session_type == session_type,
        r.input_injection_permission == permission_spec(os@, session_type),
        session_type == SessionType::Wayland ==> r.notes@.len() == 2,
        session_type != SessionType::Wayland ==> r.notes@.len() == 1,
{
    let (permission, mut notes) = permission_and_notes_for_os(os, session_type);
    if session_type == SessionType::Wayland {
        notes.push(
            String::from_str(
                "Wayland may block global text injection; use X11 for full dictation support in v1.",
            ),
        );
    }
    let os_copy = String::from_str(os);
    EnvironmentHealth {
        os: os_copy,
        session_type,
        input_injection_permission: permission,
        notes,
    }
}

} // verus!
