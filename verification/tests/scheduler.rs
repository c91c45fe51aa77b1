use std::collections::VecDeque;

use sonora_core::config::{DictationMode, ModelProfile};
use sonora_core::pipeline::{DictationState, PipelineStatus};
use sonora_core::profile::ProfileTuning;
use sonora_core::scheduler::{
    dequeue_chunk, next_capture_action, plan_live_capture_chunk, should_emit_meter_update,
    trim_pending_backlog, LiveCaptureAction,
};

fn pipeline_status(
    state: DictationState,
    min_chunk_samples: usize,
    partial_cadence_ms: u64,
) -> PipelineStatus {
    PipelineStatus {
        mode: DictationMode::PushToToggle,
        state,
        model_profile: ModelProfile::Balanced,
        tuning: ProfileTuning {
            min_chunk_samples,
            partial_cadence_ms,
        },
    }
}

#[test]
fn chunk_plan_requires_listening_state() {
    let status = pipeline_status(DictationState::Idle, 32_000, 1_400);
    let plan = plan_live_capture_chunk(&status, 64_000, 3_000);
    assert!(plan.is_none());
}

#[test]
fn chunk_plan_respects_minimum_and_cadence() {
    let status = pipeline_status(DictationState::Listening, 32_000, 1_400);

    let too_small = plan_live_capture_chunk(&status, 31_999, 3_000);
    assert!(too_small.is_none());

    let too_soon = plan_live_capture_chunk(&status, 32_000, 1_000);
    assert!(too_soon.is_none());

    let ready = plan_live_capture_chunk(&status, 80_000, 1_600).expect("chunk should be planned");
    assert_eq!(ready.max_chunk_samples, 96_000);
    assert_eq!(ready.next_chunk_size, 80_000);
}

#[test]
fn chunk_plan_caps_chunk_size_by_maximum() {
    let status = pipeline_status(DictationState::Listening, 32_000, 1_400);
    let plan = plan_live_capture_chunk(&status, 150_000, 2_000).expect("chunk should be planned");
    assert_eq!(plan.max_chunk_samples, 96_000);
    assert_eq!(plan.next_chunk_size, 96_000);
}

#[test]
fn chunk_plan_enforces_floors_on_tiny_tuning() {
    let status = pipeline_status(DictationState::Listening, 100, 10);

    let below_floor = plan_live_capture_chunk(&status, 7_999, 1_000);
    assert!(below_floor.is_none());

    let too_soon = plan_live_capture_chunk(&status, 8_000, 299);
    assert!(too_soon.is_none());

    let ready = plan_live_capture_chunk(&status, 8_000, 300).expect("chunk should be planned");
    assert_eq!(ready.max_chunk_samples, 24_000);
    assert_eq!(ready.next_chunk_size, 8_000);
}

#[test]
fn trims_pending_backlog_to_bounded_limit() {
    let mut pending = (0..80).map(|value| value as i16).collect::<VecDeque<_>>();
    trim_pending_backlog(&mut pending, 10);

    assert_eq!(pending.len(), 50);
    assert_eq!(pending.front().copied(), Some(30));
    assert_eq!(pending.back().copied(), Some(79));
}

#[test]
fn short_backlog_is_left_alone() {
    let mut pending = (0..40).map(|value| value as i16).collect::<VecDeque<_>>();
    trim_pending_backlog(&mut pending, 10);
    assert_eq!(pending.len(), 40);
    assert_eq!(pending.front().copied(), Some(0));
}

#[test]
fn capture_action_clears_stale_backlog_when_not_listening() {
    let idle = pipeline_status(DictationState::Idle, 32_000, 1_400);
    assert_eq!(
        next_capture_action(&idle, 64_000, 5_000),
        LiveCaptureAction::ClearBacklog
    );

    let listening = pipeline_status(DictationState::Listening, 32_000, 1_400);
    assert_eq!(
        next_capture_action(&listening, 10, 5_000),
        LiveCaptureAction::Wait
    );
    match next_capture_action(&listening, 40_000, 5_000) {
        LiveCaptureAction::Emit(plan) => {
            assert_eq!(plan.next_chunk_size, 40_000);
            assert_eq!(plan.max_chunk_samples, 96_000);
        }
        other => panic!("expected an emission, got {other:?}"),
    }
}

#[test]
fn dequeue_takes_the_oldest_samples_in_order() {
    let mut pending = (0..10).map(|value| value as i16).collect::<VecDeque<_>>();
    let chunk = dequeue_chunk(&mut pending, 4);
    assert_eq!(chunk, vec![0, 1, 2, 3]);
    assert_eq!(pending.front().copied(), Some(4));
    assert_eq!(pending.len(), 6);

    let rest = dequeue_chunk(&mut pending, 100);
    assert_eq!(rest, vec![4, 5, 6, 7, 8, 9]);
    assert!(pending.is_empty());
}

#[test]
fn meter_emit_interval_matches_smooth_ui_target() {
    assert!(!should_emit_meter_update(20));
    assert!(should_emit_meter_update(33));
    assert!(should_emit_meter_update(45));
}
