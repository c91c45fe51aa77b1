//! Crash-recovery checkpoint bookkeeping: the pure transitions applied to a
//! checkpoint at startup, at clean shutdown, and when the user acknowledges
//! a recovery notice. Loading and storing the checkpoint is the host's job.

use vstd::prelude::*;

verus! {

/// The persisted record of how the previous session ended.
#[derive(Debug, Clone, PartialEq, Eq)]
pub struct RecoveryCheckpoint {
    pub clean_shutdown: bool,
    pub recovery_notice_pending: bool,
    pub launch_count: u64,
    pub last_start_unix_ms: Option<u128>,
    pub last_shutdown_unix_ms: Option<u128>,
}

impl Default for RecoveryCheckpoint {
    fn default() -> (r: Self)
        ensures
            r.clean_shutdown == true,
            r.recovery_notice_pending == false,
            r.launch_count == 0u64,
            r.last_start_unix_ms is None,
            r.last_shutdown_unix_ms is None,
    {
        RecoveryCheckpoint {
            clean_shutdown: true,
            recovery_notice_pending: false,
            launch_count: 0,
            last_start_unix_ms: None,
            last_shutdown_unix_ms: None,
        }
    }
}

/// Record a session start: the session is now live (not cleanly shut down),
/// a recovery notice becomes pending exactly when the previous shutdown was
/// not clean, and the launch count grows by one (saturating).
pub fn mark_start(checkpoint: &RecoveryCheckpoint, now_unix_ms: u128) -> (r: RecoveryCheckpoint)
    ensures
        r.clean_shutdown == false,
        r.recovery_notice_pending == !checkpoint.clean_shutdown,
        checkpoint.launch_count < u64::MAX ==> r.launch_count == checkpoint.launch_count + 1,
        checkpoint.launch_count == u64::MAX ==> r.launch_count == u64::MAX,
        r.last_start_unix_ms == Some(now_unix_ms),
        r.last_shutdown_unix_ms == checkpoint.last_shutdown_unix_ms,
{
    RecoveryCheckpoint {
        clean_shutdown: false,
        recovery_notice_pending: !checkpoint.clean_shutdown,
        launch_count: if checkpoint.launch_count < u64::MAX {
            checkpoint.launch_count + 1
        } else {
            u64::MAX
        },
        last_start_unix_ms: Some(now_unix_ms),
        last_shutdown_unix_ms: checkpoint.last_shutdown_unix_ms,
    }
}

/// Record a clean shutdown: the pending notice is cleared and the shutdown
/// time is remembered.
pub fn mark_clean_shutdown(checkpoint: &RecoveryCheckpoint, now_unix_ms: u128) -> (r:
    RecoveryCheckpoint)
    ensures
        r.clean_shutdown == true,
        r.recovery_notice_pending == false,
        r.launch_count == checkpoint.launch_count,
        r.last_start_unix_ms == checkpoint.last_start_unix_ms,
        r.last_shutdown_unix_ms == Some(now_unix_ms),
{
    RecoveryCheckpoint {
        clean_shutdown: true,
        recovery_notice_pending: false,
        launch_count: checkpoint.launch_count,
        last_start_unix_ms: checkpoint.last_start_unix_ms,
        last_shutdown_unix_ms: Some(now_unix_ms),
    }
}

/// Clear a pending recovery notice; everything else is kept.
pub fn acknowledge_recovery_notice(checkpoint: &RecoveryCheckpoint) -> (r: RecoveryCheckpoint)
    ensures
        r.recovery_notice_pending == false,
        r.clean_shutdown == checkpoint.clean_shutdown,
        r.launch_count == checkpoint.launch_count,
        r.last_start_unix_ms == checkpoint.last_start_unix_ms,
        r.last_shutdown_unix_ms == checkpoint.last_shutdown_unix_ms,
{
    RecoveryCheckpoint {
        recovery_notice_pending: false,
        clean_shutdown: checkpoint.clean_shutdown,
        launch_count: checkpoint.launch_count,
        last_start_unix_ms: checkpoint.last_start_unix_ms,
        last_shutdown_unix_ms: checkpoint.last_shutdown_unix_ms,
    }
}

} // verus!
