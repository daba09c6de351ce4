use emotional_core::binary32::millionths_from_binary32;
use emotional_core::fixed::HALF;
use emotional_core::fixed::ONE;
use emotional_core::session::compress_emotional_state;
use emotional_core::session::initialize_session;
use emotional_core::session::record_performance;
use emotional_core::session::update_emotional_trajectory;
use emotional_core::session::CreativeSession;
use emotional_core::session::CrossChainInfo;
use emotional_core::session::SessionError;
use emotional_core::trajectory::EmotionalTrajectory;
use emotional_core::vector::hash_emotional_state;
use emotional_core::vector::EmotionalVector;

const CREATOR: [u8; 32] = [1u8; 32];
const SESSION: [u8; 32] = [2u8; 32];

fn calm() -> EmotionalVector {
    EmotionalVector { valence: 0, arousal: 0, dominance: 0, confidence: ONE, timestamp: 1000 }
}

fn lively() -> EmotionalVector {
    EmotionalVector {
        valence: 400_000,
        arousal: 600_000,
        dominance: 200_000,
        confidence: 900_000,
        timestamp: 1060,
    }
}

fn started() -> CreativeSession {
    initialize_session(CREATOR, SESSION, calm(), vec![ONE, 2 * ONE], 5000).unwrap()
}

#[test]
fn initialize_sets_the_defaults() {
    let session = started();
    assert_eq!(session.creator, CREATOR);
    assert_eq!(session.session_id, SESSION);
    assert_eq!(session.start_time, 5000);
    assert_eq!(session.last_updated, 5000);
    assert_eq!(session.emotional_state, calm());
    assert_eq!(session.shader_params, vec![ONE, 2 * ONE]);
    assert_eq!(session.interaction_count, 0);
    assert_eq!(session.community_engagement, 0);
    assert_eq!(session.reputation_score, HALF);
    assert_eq!(session.emotional_complexity, HALF);
    assert_eq!(session.creativity_index, HALF);
    assert_eq!(session.compressed_state, hash_emotional_state(&calm()));
    assert_eq!(session.cross_chain_info, CrossChainInfo::default());
    assert!(session.is_wf());
}

#[test]
fn default_cross_chain_info_is_unset() {
    let info = CrossChainInfo::default();
    assert_eq!(info.target_chain, "");
    assert_eq!(info.target_contract, [0u8; 32]);
    assert_eq!(info.bridge_status, 0);
    assert_eq!(info.bridge_timestamp, 0);
    assert_eq!(info.emotional_hash, [0u8; 32]);
}

#[test]
fn initialize_rejects_a_state_out_of_range() {
    let bad = EmotionalVector { arousal: ONE + 1, ..calm() };
    assert_eq!(
        initialize_session(CREATOR, SESSION, bad, vec![], 0),
        Err(SessionError::InvalidRange)
    );
    let bad = EmotionalVector { valence: -ONE - 1, ..calm() };
    assert_eq!(
        initialize_session(CREATOR, SESSION, bad, vec![], 0),
        Err(SessionError::InvalidRange)
    );
}

#[test]
fn recording_a_performance_updates_the_session() {
    let mut session = started();
    let params = vec![ONE, 2 * ONE, 3 * ONE];
    let performance =
        record_performance(&mut session, lively(), params.clone(), 300_000, 900_000, 6000)
            .unwrap();
    assert_eq!(session.interaction_count, 1);
    assert_eq!(session.reputation_score, 540_000);
    assert_eq!(performance.emotional_impact, 400_000);
    assert_eq!(performance.creativity_boost, 858_248);
    assert_eq!(performance.session_id, SESSION);
    assert_eq!(performance.timestamp, 6000);
    assert_eq!(performance.emotional_vector, lively());
    assert_eq!(performance.shader_parameters, params);
    assert_eq!(performance.interaction_intensity, 300_000);
    assert_eq!(performance.quality_score, 900_000);
    assert_eq!(session.emotional_state, lively());
    assert_eq!(session.shader_params, params);
    assert_eq!(session.last_updated, 6000);
    assert_eq!(session.start_time, 5000);
    assert_eq!(session.creativity_index, HALF);
    assert_eq!(session.emotional_complexity, HALF);
    assert_eq!(session.compressed_state, hash_emotional_state(&calm()));
    assert!(session.is_wf());
}

#[test]
fn impact_is_measured_against_the_previous_state() {
    let mut session = started();
    record_performance(&mut session, lively(), vec![], 0, HALF, 1).unwrap();
    let second = record_performance(&mut session, lively(), vec![], 0, HALF, 2).unwrap();
    assert_eq!(second.emotional_impact, 0);
    let third = record_performance(&mut session, calm(), vec![], 0, HALF, 3).unwrap();
    assert_eq!(third.emotional_impact, 400_000);
    assert_eq!(session.interaction_count, 3);
}

#[test]
fn reputation_follows_the_quality() {
    let mut session = started();
    record_performance(&mut session, calm(), vec![], 0, ONE, 1).unwrap();
    assert_eq!(session.reputation_score, 550_000);
    record_performance(&mut session, calm(), vec![], 0, ONE, 2).unwrap();
    assert_eq!(session.reputation_score, 595_000);
    record_performance(&mut session, calm(), vec![], 0, 0, 3).unwrap();
    assert_eq!(session.reputation_score, 535_500);
    let before = session.reputation_score;
    record_performance(&mut session, calm(), vec![], 0, before, 4).unwrap();
    assert_eq!(session.reputation_score, before);
}

#[test]
fn recording_rejects_input_out_of_range() {
    let bad_vectors = [
        EmotionalVector { valence: ONE + 1, ..lively() },
        EmotionalVector { arousal: -1, ..lively() },
        EmotionalVector { dominance: ONE + 1, ..lively() },
        EmotionalVector { confidence: -1, ..lively() },
    ];
    for bad in bad_vectors {
        let mut session = started();
        let result = record_performance(&mut session, bad, vec![7], HALF, HALF, 9);
        assert_eq!(result, Err(SessionError::InvalidRange));
        assert_eq!(session, started());
    }
    for (intensity, quality) in [(-1, HALF), (ONE + 1, HALF), (HALF, -1), (HALF, ONE + 1)] {
        let mut session = started();
        let result = record_performance(&mut session, lively(), vec![7], intensity, quality, 9);
        assert_eq!(result, Err(SessionError::InvalidRange));
        assert_eq!(session, started());
    }
}

#[test]
fn recording_accepts_the_edges_of_the_domains() {
    let mut session = started();
    let edge = EmotionalVector {
        valence: -ONE,
        arousal: ONE,
        dominance: ONE,
        confidence: 0,
        timestamp: i64::MIN,
    };
    let performance = record_performance(&mut session, edge, vec![], ONE, 0, i64::MAX).unwrap();
    assert_eq!(performance.emotional_impact, 1_000_000);
    assert_eq!(performance.creativity_boost, 0);
    assert_eq!(session.reputation_score, 450_000);
}

#[test]
fn interaction_count_stops_at_the_largest() {
    let mut session = started();
    session.interaction_count = u32::MAX - 1;
    record_performance(&mut session, calm(), vec![], 0, HALF, 1).unwrap();
    assert_eq!(session.interaction_count, u32::MAX);
    record_performance(&mut session, calm(), vec![], 0, HALF, 2).unwrap();
    assert_eq!(session.interaction_count, u32::MAX);
}

#[test]
fn trajectory_takes_the_state_that_is_replaced() {
    let mut session = started();
    let mut trajectory = EmotionalTrajectory::new(SESSION);
    update_emotional_trajectory(&mut trajectory, &mut session, lively()).unwrap();
    assert_eq!(trajectory.emotional_history, vec![calm()]);
    assert_eq!(session.emotional_state, lively());
    assert_eq!(trajectory.update_count, 1);
    assert_eq!(trajectory.trajectory_complexity, HALF);
    assert_eq!(session.emotional_complexity, HALF);
    assert_eq!(trajectory.predicted_next, EmotionalVector::default());

    let third = EmotionalVector { valence: 100_000, ..lively() };
    update_emotional_trajectory(&mut trajectory, &mut session, third).unwrap();
    assert_eq!(trajectory.emotional_history, vec![calm(), lively()]);
    assert_eq!(session.emotional_state, third);
    assert_eq!(trajectory.update_count, 2);
    assert_eq!(trajectory.trajectory_complexity, 748_331);
    assert_eq!(session.emotional_complexity, 748_331);
    assert_eq!(
        trajectory.predicted_next,
        EmotionalVector {
            valence: 800_000,
            arousal: 1_200_000,
            dominance: 400_000,
            confidence: 700_000,
            timestamp: 1120,
        }
    );
    assert!(trajectory.is_wf());
    assert!(session.is_wf());
}

#[test]
fn trajectory_update_rejects_a_state_out_of_range() {
    let mut session = started();
    let mut trajectory = EmotionalTrajectory::new(SESSION);
    update_emotional_trajectory(&mut trajectory, &mut session, lively()).unwrap();
    let session_before = session.clone();
    let trajectory_before = trajectory.clone();
    let bad = EmotionalVector { dominance: -1, ..lively() };
    assert_eq!(
        update_emotional_trajectory(&mut trajectory, &mut session, bad),
        Err(SessionError::InvalidRange)
    );
    assert_eq!(session, session_before);
    assert_eq!(trajectory, trajectory_before);
}

#[test]
fn trajectory_update_rejects_a_stored_state_out_of_range() {
    let mut session = started();
    let mut trajectory = EmotionalTrajectory::new(SESSION);
    session.emotional_state.arousal = ONE + 1;
    let session_before = session.clone();
    assert_eq!(
        update_emotional_trajectory(&mut trajectory, &mut session, lively()),
        Err(SessionError::InvalidRange)
    );
    assert_eq!(session, session_before);
    assert_eq!(trajectory, EmotionalTrajectory::new(SESSION));

    let mut session = started();
    let mut trajectory = EmotionalTrajectory::new(SESSION);
    trajectory.emotional_history.push(EmotionalVector { valence: -ONE - 1, ..calm() });
    let trajectory_before = trajectory.clone();
    assert_eq!(
        update_emotional_trajectory(&mut trajectory, &mut session, lively()),
        Err(SessionError::InvalidRange)
    );
    assert_eq!(session, started());
    assert_eq!(trajectory, trajectory_before);
}

#[test]
fn trajectory_update_looks_only_at_the_two_newest_states() {
    let mut session = started();
    let mut trajectory = EmotionalTrajectory::new(SESSION);
    trajectory.emotional_history.push(EmotionalVector { valence: -ONE - 1, ..calm() });
    trajectory.emotional_history.push(calm());
    assert_eq!(update_emotional_trajectory(&mut trajectory, &mut session, lively()), Ok(()));
    assert_eq!(trajectory.emotional_history.len(), 3);
    assert_eq!(trajectory.predicted_next.valence, 0);
}

#[test]
fn history_grows_by_one_up_to_its_capacity() {
    let mut session = started();
    let mut trajectory = EmotionalTrajectory::new(SESSION);
    for n in 1..=250usize {
        let before = trajectory.emotional_history.len();
        let next = EmotionalVector { valence: n as i32, ..calm() };
        update_emotional_trajectory(&mut trajectory, &mut session, next).unwrap();
        assert_eq!(trajectory.emotional_history.len(), std::cmp::min(before + 1, 100));
        let bad = EmotionalVector { confidence: -1, ..calm() };
        let held = trajectory.emotional_history.len();
        assert!(update_emotional_trajectory(&mut trajectory, &mut session, bad).is_err());
        assert_eq!(trajectory.emotional_history.len(), held);
    }
}

#[test]
fn the_hundred_and_first_update_drops_the_first_state() {
    let mut session = started();
    let mut trajectory = EmotionalTrajectory::new(SESSION);
    let mut moved = Vec::new();
    for n in 1..=101 {
        moved.push(session.emotional_state);
        let next = EmotionalVector { valence: n, timestamp: n as i64, ..calm() };
        update_emotional_trajectory(&mut trajectory, &mut session, next).unwrap();
    }
    assert_eq!(moved.len(), 101);
    assert_eq!(trajectory.emotional_history, moved[1..].to_vec());
    assert!(!trajectory.emotional_history.contains(&moved[0]));
}

#[test]
fn trajectory_keeps_a_hundred_states_and_counts_every_update() {
    let mut session = started();
    let mut trajectory = EmotionalTrajectory::new(SESSION);
    for i in 1..=150 {
        let next = EmotionalVector { valence: i, timestamp: i as i64, ..calm() };
        update_emotional_trajectory(&mut trajectory, &mut session, next).unwrap();
        assert!(trajectory.emotional_history.len() <= 100);
    }
    assert_eq!(trajectory.update_count, 150);
    assert_eq!(trajectory.emotional_history.len(), 100);
    assert_eq!(trajectory.emotional_history[0].valence, 50);
    assert_eq!(trajectory.emotional_history[99].valence, 149);
    assert_eq!(session.emotional_state.valence, 150);
    assert_eq!(trajectory.predicted_next.valence, 150);
    assert_eq!(trajectory.trajectory_complexity, 1);
}

#[test]
fn update_count_stops_at_the_largest() {
    let mut session = started();
    let mut trajectory = EmotionalTrajectory::new(SESSION);
    trajectory.update_count = u32::MAX;
    update_emotional_trajectory(&mut trajectory, &mut session, lively()).unwrap();
    assert_eq!(trajectory.update_count, u32::MAX);
}

#[test]
fn compressing_recomputes_the_hash_and_nothing_else() {
    let mut session = started();
    record_performance(&mut session, lively(), vec![], 0, HALF, 1).unwrap();
    assert_eq!(session.compressed_state, hash_emotional_state(&calm()));
    let before = session.clone();
    compress_emotional_state(&mut session, [9u8; 32]);
    assert_eq!(session.compressed_state, hash_emotional_state(&lively()));
    assert_ne!(session.compressed_state, before.compressed_state);
    let expected = CreativeSession { compressed_state: session.compressed_state, ..before };
    assert_eq!(session, expected);
}

#[test]
fn compressing_twice_is_compressing_once() {
    let mut session = started();
    compress_emotional_state(&mut session, [0u8; 32]);
    let once = session.clone();
    compress_emotional_state(&mut session, [3u8; 32]);
    assert_eq!(session, once);
    assert_eq!(session, started());
}

#[test]
fn well_formedness_of_a_session() {
    let session = started();
    assert!(session.is_wf());
    assert!(!CreativeSession { reputation_score: -1, ..session.clone() }.is_wf());
    assert!(!CreativeSession { reputation_score: ONE + 1, ..session.clone() }.is_wf());
    assert!(!CreativeSession { emotional_complexity: -1, ..session.clone() }.is_wf());
    assert!(!CreativeSession { creativity_index: ONE + 1, ..session.clone() }.is_wf());
    let bad_state = EmotionalVector { arousal: -1, ..calm() };
    assert!(!CreativeSession { emotional_state: bad_state, ..session.clone() }.is_wf());
}

fn read(x: f32) -> i32 {
    millionths_from_binary32(x.to_bits()).unwrap()
}

#[test]
fn recording_from_single_precision_numbers() {
    let initial = EmotionalVector {
        valence: read(0.0),
        arousal: read(0.0),
        dominance: read(0.0),
        confidence: read(1.0),
        timestamp: 1000,
    };
    let mut session = initialize_session(CREATOR, SESSION, initial, vec![], 1000).unwrap();
    let observed = EmotionalVector {
        valence: read(0.4),
        arousal: read(0.6),
        dominance: read(0.2),
        confidence: read(1.0),
        timestamp: 1001,
    };
    let params = vec![read(1.0), read(2.0), read(3.0)];
    let performance =
        record_performance(&mut session, observed, params, read(0.5), read(0.9), 1001).unwrap();
    assert_eq!(session.interaction_count, 1);
    assert_eq!(session.reputation_score, read(0.54));
    assert_eq!(performance.emotional_impact, read(0.4) as i64);
    let impact = performance.emotional_impact as f64 / 1_000_000.0;
    let reputation = session.reputation_score as f64 / 1_000_000.0;
    assert!((impact - 0.4).abs() < 1e-9);
    assert!((reputation - 0.54).abs() < 1e-9);
}
