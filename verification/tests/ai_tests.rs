use jugar_web::ai::{
    default_schema, profile_index, xorshift64, DecisionState, DeterminismConfig, FlowChannel, ModelMetadata,
    PlayerMetrics,
};

#[test]
fn test_model_metadata_default() {
    let meta = ModelMetadata::default();
    assert_eq!(meta.name, "Pong AI v1");
    assert_eq!(meta.version, "1.0.0");
    assert_eq!(meta.author, "PAIML");
    assert_eq!(meta.license, "MIT");
}

#[test]
fn test_flow_channel_labels() {
    assert_eq!(FlowChannel::Boredom.label(), "Bored (too easy)");
    assert_eq!(FlowChannel::Flow.label(), "In Flow (optimal)");
    assert_eq!(FlowChannel::Anxiety.label(), "Anxious (too hard)");
}

#[test]
fn test_player_metrics_new() {
    let metrics = PlayerMetrics::new();
    assert_eq!(metrics.player_hits, 0);
    assert_eq!(metrics.player_misses, 0);
    assert_eq!(metrics.current_rally, 0);
}

#[test]
fn test_player_metrics_record_hit() {
    let mut metrics = PlayerMetrics::new();
    metrics.record_hit();
    assert_eq!(metrics.player_hits, 1);
    assert_eq!(metrics.current_rally, 1);
}

#[test]
fn test_player_metrics_record_player_scored() {
    let mut metrics = PlayerMetrics::new();
    metrics.record_hit();
    metrics.record_hit();
    metrics.record_player_scored(10);

    assert_eq!(metrics.player_points, 1);
    assert_eq!(metrics.current_rally, 0);
    assert_eq!(metrics.rally_history.len(), 1);
    assert_eq!(metrics.rally_history[0], 2);
    assert!(metrics.point_history[0]);
}

#[test]
fn test_player_metrics_record_ai_scored() {
    let mut metrics = PlayerMetrics::new();
    metrics.record_hit();
    metrics.record_ai_scored(10);

    assert_eq!(metrics.ai_points, 1);
    assert_eq!(metrics.player_misses, 1);
    assert!(!metrics.point_history[0]);
}

#[test]
fn test_player_metrics_window_size() {
    let mut metrics = PlayerMetrics::new();

    for _ in 0..15 {
        metrics.record_player_scored(5);
    }

    assert_eq!(metrics.point_history.len(), 5);
}

#[test]
fn metrics_window_keeps_most_recent_outcomes() {
    let mut metrics = PlayerMetrics::new();
    metrics.record_player_scored(3);
    metrics.record_hit();
    metrics.record_ai_scored(3);
    metrics.record_hit();
    metrics.record_hit();
    metrics.record_player_scored(3);
    metrics.record_ai_scored(3);
    assert_eq!(metrics.point_history, vec![false, true, false]);
    assert_eq!(metrics.rally_history, vec![1, 2, 0]);
    assert_eq!(metrics.player_points, 2);
    assert_eq!(metrics.ai_points, 2);
    assert_eq!(metrics.player_hits, 3);
}

#[test]
fn metrics_window_of_zero_keeps_nothing() {
    let mut metrics = PlayerMetrics::new();
    metrics.record_hit();
    metrics.record_player_scored(0);
    assert!(metrics.point_history.is_empty());
    assert!(metrics.rally_history.is_empty());
    assert_eq!(metrics.player_points, 1);
    assert_eq!(metrics.current_rally, 0);
}

#[test]
fn finalize_rally_trims_both_histories() {
    let mut metrics = PlayerMetrics::new();
    for _ in 0..4 {
        metrics.record_player_scored(10);
    }
    metrics.record_hit();
    metrics.finalize_rally(2);
    assert_eq!(metrics.rally_history, vec![0, 1]);
    assert_eq!(metrics.point_history, vec![true, true]);
    assert_eq!(metrics.current_rally, 0);
}

#[test]
fn metrics_reset_clears_everything() {
    let mut metrics = PlayerMetrics::new();
    metrics.record_hit();
    metrics.record_ai_scored(5);
    metrics.reset();
    assert_eq!(metrics.ai_points, 0);
    assert_eq!(metrics.player_misses, 0);
    assert_eq!(metrics.player_hits, 0);
    assert!(metrics.point_history.is_empty());
    assert!(metrics.rally_history.is_empty());
}

#[test]
fn determinism_config_default() {
    let config = DeterminismConfig::default();
    assert_eq!(config.seed, 12345);
    assert_eq!(config.rng_algorithm, "xorshift64");
}

#[test]
fn model_schema_default() {
    assert_eq!(default_schema(), "https://paiml.com/schemas/apr/v1");
}

#[test]
fn xorshift_matches_reference_steps() {
    let mut x: u64 = 12345;
    x ^= x << 13;
    x ^= x >> 7;
    x ^= x << 17;
    assert_eq!(xorshift64(12345), x);
    assert_eq!(xorshift64(0), 0);
    assert_ne!(xorshift64(1), 0);
}

#[test]
fn decision_state_labels_and_codes() {
    assert_eq!(DecisionState::default(), DecisionState::Idle);
    assert_eq!(DecisionState::Idle.label(), "Idle (centering)");
    assert_eq!(DecisionState::Reacting.label(), "Reacting (delay)");
    assert_eq!(DecisionState::Tracking.label(), "Tracking ball");
    assert_eq!(DecisionState::Ready.label(), "Ready (at target)");
    assert_eq!(DecisionState::Idle.code(), "IDLE");
    assert_eq!(DecisionState::Reacting.code(), "REACT");
    assert_eq!(DecisionState::Tracking.code(), "TRACK");
    assert_eq!(DecisionState::Ready.code(), "READY");
    assert_eq!(FlowChannel::default(), FlowChannel::Flow);
}

#[test]
fn decision_classification() {
    assert_eq!(DecisionState::classify(false, true, true, true), DecisionState::Idle);
    assert_eq!(DecisionState::classify(true, false, false, false), DecisionState::Idle);
    assert_eq!(DecisionState::classify(true, true, true, true), DecisionState::Reacting);
    assert_eq!(DecisionState::classify(true, true, false, true), DecisionState::Ready);
    assert_eq!(DecisionState::classify(true, true, false, false), DecisionState::Tracking);
}

#[test]
fn profile_index_clamps_to_last_profile() {
    assert_eq!(profile_index(0, 10), 0);
    assert_eq!(profile_index(9, 10), 9);
    assert_eq!(profile_index(10, 10), 9);
    assert_eq!(profile_index(255, 10), 9);
    assert_eq!(profile_index(12, 13), 9);
    assert_eq!(profile_index(100, 20), 9);
    assert_eq!(profile_index(7, 20), 7);
    assert_eq!(profile_index(5, 3), 2);
    assert_eq!(profile_index(3, 1), 0);
    assert_eq!(profile_index(3, 0), 0);
}

#[test]
fn xorshift_never_reaches_zero_from_nonzero() {
    let mut x: u64 = 12345;
    for _ in 0..10_000 {
        x = xorshift64(x);
        assert_ne!(x, 0);
    }
}

#[test]
fn test_finalize_rally_window_trimming() {
    let mut metrics = PlayerMetrics::new();
    for _ in 0..100 {
        metrics.record_player_scored(10);
    }
    assert!(metrics.rally_history.len() <= 30);
    assert_eq!(metrics.rally_history.len(), 10);
}

#[test]
fn histories_hold_the_last_window_of_points() {
    let window = 4usize;
    let mut metrics = PlayerMetrics::new();
    for i in 0..23u32 {
        if i % 3 == 0 {
            metrics.record_hit();
        }
        if i % 2 == 0 {
            metrics.record_ai_scored(window);
            assert_eq!(metrics.point_history.last(), Some(&false));
        } else {
            metrics.record_player_scored(window);
            assert_eq!(metrics.point_history.last(), Some(&true));
        }
        let played = (metrics.player_points + metrics.ai_points) as usize;
        assert_eq!(metrics.point_history.len(), played.min(window));
        assert_eq!(metrics.rally_history.len(), played.min(window));
        assert_eq!(metrics.player_misses, metrics.ai_points);
        assert_eq!(metrics.current_rally, 0);
    }
}
