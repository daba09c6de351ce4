use emotional_core::fixed::HALF;
use emotional_core::fixed::ONE;
use emotional_core::reputation::update_creator_reputation;
use emotional_core::reputation::CreatorReputation;
use emotional_core::session::initialize_session;
use emotional_core::session::CreativeSession;
use emotional_core::session::SessionError;
use emotional_core::vector::EmotionalVector;

const CREATOR: [u8; 32] = [4u8; 32];

fn session_with(interactions: u32, creativity_index: i32) -> CreativeSession {
    let state =
        EmotionalVector { valence: 0, arousal: 0, dominance: 0, confidence: ONE, timestamp: 0 };
    let mut session = initialize_session(CREATOR, [5u8; 32], state, vec![], 0).unwrap();
    session.interaction_count = interactions;
    session.creativity_index = creativity_index;
    session
}

#[test]
fn new_reputation_is_blank() {
    let reputation = CreatorReputation::new(CREATOR);
    assert_eq!(
        reputation,
        CreatorReputation {
            creator: CREATOR,
            reputation_score: 0,
            total_interactions: 0,
            last_updated: 0,
            emotional_consistency: 0,
            creativity_score: 0,
            community_rank: 0,
            total_sessions: 0,
        }
    );
    assert!(reputation.is_wf());
}

#[test]
fn applying_a_session_updates_every_aggregate() {
    let mut reputation = CreatorReputation {
        creator: CREATOR,
        reputation_score: HALF,
        total_interactions: 40,
        last_updated: 10,
        emotional_consistency: 600_000,
        creativity_score: 300_000,
        community_rank: 12,
        total_sessions: 3,
    };
    let session = session_with(7, 700_000);
    assert_eq!(update_creator_reputation(&mut reputation, &session, 900_000, 77), Ok(()));
    assert_eq!(
        reputation,
        CreatorReputation {
            creator: CREATOR,
            reputation_score: 540_000,
            total_interactions: 47,
            last_updated: 77,
            emotional_consistency: 632_000,
            creativity_score: 400_000,
            community_rank: 12,
            total_sessions: 4,
        }
    );
    assert!(reputation.is_wf());
}

#[test]
fn first_session_replaces_the_creativity_score() {
    let mut reputation = CreatorReputation::new(CREATOR);
    reputation.creativity_score = 999_999;
    let session = session_with(1, 250_000);
    update_creator_reputation(&mut reputation, &session, HALF, 1).unwrap();
    assert_eq!(reputation.creativity_score, 250_000);
    assert_eq!(reputation.total_sessions, 1);
}

#[test]
fn creativity_score_is_the_running_mean() {
    let mut reputation = CreatorReputation::new(CREATOR);
    let indices = [200_000, 400_000, 900_000, 100_000];
    let means = [200_000, 300_000, 500_000, 400_000];
    for (index, mean) in indices.iter().zip(means.iter()) {
        update_creator_reputation(&mut reputation, &session_with(0, *index), HALF, 0).unwrap();
        assert_eq!(reputation.creativity_score, *mean);
    }
    assert_eq!(reputation.total_sessions, 4);
}

#[test]
fn running_mean_rounds_down() {
    let mut reputation = CreatorReputation::new(CREATOR);
    for index in [1, 2, 2] {
        update_creator_reputation(&mut reputation, &session_with(0, index), HALF, 0).unwrap();
    }
    assert_eq!(reputation.creativity_score, 1);
}

#[test]
fn equal_sessions_give_exactly_their_creativity() {
    for start in [0, 123_456, ONE] {
        let mut reputation = CreatorReputation::new(CREATOR);
        reputation.creativity_score = start;
        for n in 1..=500 {
            update_creator_reputation(&mut reputation, &session_with(0, 333_333), HALF, 0)
                .unwrap();
            assert_eq!(reputation.creativity_score, 333_333);
            assert_eq!(reputation.total_sessions, n);
        }
    }
}

#[test]
fn creativity_score_moves_towards_the_sessions_and_never_past() {
    let mut reputation = CreatorReputation::new(CREATOR);
    reputation.total_sessions = 10;
    reputation.creativity_score = 900_000;
    let mut last = reputation.creativity_score;
    for _ in 0..2000 {
        update_creator_reputation(&mut reputation, &session_with(0, 100_000), HALF, 0).unwrap();
        assert!(reputation.creativity_score <= last);
        assert!(reputation.creativity_score >= 100_000);
        last = reputation.creativity_score;
    }
    let mut reputation = CreatorReputation::new(CREATOR);
    reputation.total_sessions = 10;
    reputation.creativity_score = 100_000;
    let mut last = reputation.creativity_score;
    for _ in 0..2000 {
        update_creator_reputation(&mut reputation, &session_with(0, 900_000), HALF, 0).unwrap();
        assert!(reputation.creativity_score >= last);
        assert!(reputation.creativity_score <= 900_000);
        last = reputation.creativity_score;
    }
}

#[test]
fn running_mean_can_rest_one_step_short() {
    let mut reputation = CreatorReputation::new(CREATOR);
    reputation.total_sessions = 99;
    reputation.creativity_score = 9;
    for _ in 0..50 {
        update_creator_reputation(&mut reputation, &session_with(0, 10), HALF, 0).unwrap();
        assert_eq!(reputation.creativity_score, 9);
    }
}

#[test]
fn reputation_at_the_performance_stays() {
    let mut reputation = CreatorReputation::new(CREATOR);
    reputation.reputation_score = 640_000;
    update_creator_reputation(&mut reputation, &session_with(0, 0), 640_000, 0).unwrap();
    assert_eq!(reputation.reputation_score, 640_000);
    assert_eq!(reputation.emotional_consistency, 712_000);
}

#[test]
fn performance_out_of_range_is_rejected() {
    for bad in [-1, ONE + 1, i32::MIN, i32::MAX] {
        let mut reputation = CreatorReputation::new(CREATOR);
        reputation.total_sessions = 2;
        reputation.creativity_score = HALF;
        let before = reputation;
        assert_eq!(
            update_creator_reputation(&mut reputation, &session_with(3, HALF), bad, 9),
            Err(SessionError::InvalidRange)
        );
        assert_eq!(reputation, before);
    }
}

#[test]
fn performance_at_the_edges_is_accepted() {
    let mut reputation = CreatorReputation::new(CREATOR);
    assert_eq!(update_creator_reputation(&mut reputation, &session_with(0, 0), 0, 0), Ok(()));
    assert_eq!(reputation.reputation_score, 0);
    assert_eq!(reputation.emotional_consistency, 200_000);
    assert_eq!(update_creator_reputation(&mut reputation, &session_with(0, 0), ONE, 0), Ok(()));
    assert_eq!(reputation.reputation_score, 100_000);
    assert_eq!(reputation.emotional_consistency, 280_000);
}

#[test]
fn total_interactions_stop_at_the_largest() {
    let mut reputation = CreatorReputation::new(CREATOR);
    reputation.total_interactions = u64::MAX - 5;
    update_creator_reputation(&mut reputation, &session_with(5, 0), HALF, 0).unwrap();
    assert_eq!(reputation.total_interactions, u64::MAX);
    update_creator_reputation(&mut reputation, &session_with(u32::MAX, 0), HALF, 0).unwrap();
    assert_eq!(reputation.total_interactions, u64::MAX);
}

#[test]
fn total_sessions_stop_at_the_largest() {
    let mut reputation = CreatorReputation::new(CREATOR);
    reputation.total_sessions = u32::MAX - 1;
    reputation.creativity_score = ONE;
    update_creator_reputation(&mut reputation, &session_with(0, 0), HALF, 0).unwrap();
    assert_eq!(reputation.total_sessions, u32::MAX);
    assert_eq!(reputation.creativity_score, 999_999);
    update_creator_reputation(&mut reputation, &session_with(0, 0), HALF, 0).unwrap();
    assert_eq!(reputation.total_sessions, u32::MAX);
    assert_eq!(reputation.creativity_score, 999_998);
}

#[test]
fn well_formedness_of_a_reputation() {
    let reputation = CreatorReputation::new(CREATOR);
    assert!(reputation.is_wf());
    assert!(!CreatorReputation { reputation_score: -1, ..reputation }.is_wf());
    assert!(!CreatorReputation { emotional_consistency: ONE + 1, ..reputation }.is_wf());
    assert!(!CreatorReputation { creativity_score: -1, ..reputation }.is_wf());
}

#[test]
fn running_mean_reaches_the_creativity_from_above() {
    let mut reputation = CreatorReputation::new(CREATOR);
    reputation.total_sessions = 1000;
    reputation.creativity_score = 50;
    let session = session_with(0, 10);
    let mut last = 50;
    for _ in 0..40 {
        update_creator_reputation(&mut reputation, &session, HALF, 0).unwrap();
        assert!(reputation.creativity_score == 10 || reputation.creativity_score < last);
        last = reputation.creativity_score;
    }
    assert_eq!(reputation.creativity_score, 10);
}

#[test]
fn sessions_from_none_give_their_mean_whatever_the_score_was() {
    let indices = [700_000, 100_000, 400_000, 400_001, 999_999, 3, 0, 250_000];
    for start in [0, 1, 777_777, ONE, -5, i32::MAX] {
        let mut reputation = CreatorReputation::new(CREATOR);
        reputation.creativity_score = start;
        let mut sum: i64 = 0;
        for (k, index) in indices.iter().enumerate() {
            let n = k as i64 + 1;
            update_creator_reputation(&mut reputation, &session_with(0, *index), HALF, 0)
                .unwrap();
            sum += *index as i64;
            let score = reputation.creativity_score as i64;
            assert_eq!(reputation.total_sessions as i64, n);
            assert!(n * score <= sum);
            assert!(sum <= n * score + n * (n - 1) / 2);
        }
    }
}

#[test]
fn a_rejected_session_is_not_counted() {
    let mut reputation = CreatorReputation::new(CREATOR);
    update_creator_reputation(&mut reputation, &session_with(2, 300_000), HALF, 1).unwrap();
    let before = reputation;
    assert!(update_creator_reputation(&mut reputation, &session_with(2, 900_000), -1, 2).is_err());
    assert_eq!(reputation, before);
    assert_eq!(reputation.total_sessions, 1);
    assert_eq!(reputation.creativity_score, 300_000);
}
