//! The session state machine: a creative session, the performances recorded
//! in it, and the transitions that change it.
//!
//! Every transition is a single deterministic attempt: it either applies all
//! of its updates or rejects its input and leaves every record unchanged.

use vstd::prelude::*;
use crate::fixed::in_unit;
use crate::fixed::min_of;
use crate::fixed::HALF;
use crate::fixed::ONE;
use crate::scoring::calculate_creativity_boost;
use crate::scoring::calculate_emotional_impact;
use crate::scoring::creativity_boost;
use crate::scoring::emotional_impact;
use crate::scoring::moving_average;
use crate::scoring::update_reputation;
use crate::trajectory::calculate_trajectory_complexity;
use crate::trajectory::lemma_pushed_all_is_newest;
use crate::trajectory::newest;
use crate::trajectory::predict_next_emotional_state;
use crate::trajectory::predicted_next;
use crate::trajectory::pushed;
use crate::trajectory::pushed_all;
use crate::trajectory::trajectory_complexity;
use crate::trajectory::EmotionalTrajectory;
use crate::trajectory::TrajectoryView;
use crate::trajectory::HISTORY_CAPACITY;
use crate::vector::content_hash;
use crate::vector::hash_emotional_state;
use crate::vector::EmotionalVector;

verus! {

/// Why a transition was rejected.
#[derive(Clone, Copy, Debug, PartialEq, Eq, Structural)]
pub enum SessionError {
    /// A number lies outside its documented domain.
    InvalidRange,
}

/// Where a session stands with respect to another chain.
#[derive(Clone, Debug, PartialEq, Eq)]
pub struct CrossChainInfo {
    /// The target chain's name.
    pub target_chain: String,
    /// The target contract's address.
    pub target_contract: [u8; 32],
    /// 0 for pending, 1 for bridged, 2 for failed.
    pub bridge_status: u8,
    /// When the bridge operation occurred.
    pub bridge_timestamp: i64,
    /// The hash of the emotional data, for verification.
    pub emotional_hash: [u8; 32],
}

/// The mathematical value of a [`CrossChainInfo`].
pub struct CrossChainInfoView {
    pub target_chain: Seq<char>,
    pub target_contract: Seq<u8>,
    pub bridge_status: u8,
    pub bridge_timestamp: i64,
    pub emotional_hash: Seq<u8>,
}

impl View for CrossChainInfo {
    type V = CrossChainInfoView;

    open spec fn view(&self) -> CrossChainInfoView {
        CrossChainInfoView {
            target_chain: self.target_chain@,
            target_contract: self.target_contract@,
            bridge_status: self.bridge_status,
            bridge_timestamp: self.bridge_timestamp,
            emotional_hash: self.emotional_hash@,
        }
    }
}

impl CrossChainInfo {
    /// No bridge: an empty chain name, zeroed addresses, status pending.
    pub open spec fn unset() -> CrossChainInfoView {
        CrossChainInfoView {
            target_chain: Seq::empty(),
            target_contract: Seq::new(32, |i: int| 0u8),
            bridge_status: 0,
            bridge_timestamp: 0,
            emotional_hash: Seq::new(32, |i: int| 0u8),
        }
    }
}

impl Default for CrossChainInfo {
    fn default() -> (info: CrossChainInfo)
        ensures
            info@ == CrossChainInfo::unset(),
    {
        let info = CrossChainInfo {
            target_chain: String::new(),
            target_contract: [0u8; 32],
            bridge_status: 0,
            bridge_timestamp: 0,
            emotional_hash: [0u8; 32],
        };
        proof {
            assert(info.target_contract@ =~= Seq::new(32, |i: int| 0u8));
            assert(info.emotional_hash@ =~= Seq::new(32, |i: int| 0u8));
        }
        info
    }
}

/// One creative session.
#[derive(Clone, Debug, PartialEq, Eq)]
pub struct CreativeSession {
    /// The session's owner.
    pub creator: [u8; 32],
    /// The session's unique identifier.
    pub session_id: [u8; 32],
    /// When the session started.
    pub start_time: i64,
    /// The current emotional state.
    pub emotional_state: EmotionalVector,
    /// The current shader parameters, in millionths.
    pub shader_params: Vec<i32>,
    /// The number of performances recorded.
    pub interaction_count: u32,
    /// The content hash of the emotional state when it was last compressed.
    pub compressed_state: [u8; 32],
    /// Where the session stands with respect to another chain.
    pub cross_chain_info: CrossChainInfo,
    /// The creator's reputation within this session, from 0.0 to 1.0.
    pub reputation_score: i32,
    /// The complexity of the session's trajectory, from 0.0 to 1.0.
    pub emotional_complexity: i32,
    /// The session's creativity, from 0.0 to 1.0.
    pub creativity_index: i32,
    /// The number of community interactions.
    pub community_engagement: u32,
    /// When the session was last updated.
    pub last_updated: i64,
}

/// The mathematical value of a [`CreativeSession`].
pub struct CreativeSessionView {
    pub creator: [u8; 32],
    pub session_id: [u8; 32],
    pub start_time: i64,
    pub emotional_state: EmotionalVector,
    pub shader_params: Seq<i32>,
    pub interaction_count: int,
    pub compressed_state: Seq<u8>,
    pub cross_chain_info: CrossChainInfoView,
    pub reputation_score: int,
    pub emotional_complexity: int,
    pub creativity_index: int,
    pub community_engagement: int,
    pub last_updated: i64,
}

impl View for CreativeSession {
    type V = CreativeSessionView;

    open spec fn view(&self) -> CreativeSessionView {
        CreativeSessionView {
            creator: self.creator,
            session_id: self.session_id,
            start_time: self.start_time,
            emotional_state: self.emotional_state,
            shader_params: self.shader_params@,
            interaction_count: self.interaction_count as int,
            compressed_state: self.compressed_state@,
            cross_chain_info: self.cross_chain_info@,
            reputation_score: self.reputation_score as int,
            emotional_complexity: self.emotional_complexity as int,
            creativity_index: self.creativity_index as int,
            community_engagement: self.community_engagement as int,
            last_updated: self.last_updated,
        }
    }
}

/// One performance recorded during a session.
#[derive(Clone, Debug, PartialEq, Eq)]
pub struct PerformanceData {
    /// The session the performance belongs to.
    pub session_id: [u8; 32],
    /// When the performance was recorded.
    pub timestamp: i64,
    /// The emotional state at that time.
    pub emotional_vector: EmotionalVector,
    /// The shader parameters at that time, in millionths.
    pub shader_parameters: Vec<i32>,
    /// The intensity of the interaction, from 0.0 to 1.0.
    pub interaction_intensity: i32,
    /// The emotional impact of the performance, in millionths; not capped.
    pub emotional_impact: i64,
    /// The creativity boost of the performance, from 0.0 to 1.0.
    pub creativity_boost: i32,
    /// The quality of the performance, from 0.0 to 1.0.
    pub quality_score: i32,
}

/// The mathematical value of a [`PerformanceData`].
pub struct PerformanceDataView {
    pub session_id: [u8; 32],
    pub timestamp: i64,
    pub emotional_vector: EmotionalVector,
    pub shader_parameters: Seq<i32>,
    pub interaction_intensity: int,
    pub emotional_impact: int,
    pub creativity_boost: int,
    pub quality_score: int,
}

impl View for PerformanceData {
    type V = PerformanceDataView;

    open spec fn view(&self) -> PerformanceDataView {
        PerformanceDataView {
            session_id: self.session_id,
            timestamp: self.timestamp,
            emotional_vector: self.emotional_vector,
            shader_parameters: self.shader_parameters@,
            interaction_intensity: self.interaction_intensity as int,
            emotional_impact: self.emotional_impact as int,
            creativity_boost: self.creativity_boost as int,
            quality_score: self.quality_score as int,
        }
    }
}

/// A counter one step on, held at the largest value of its 32 bits.
pub open spec fn counted_up(count: int) -> int {
    if count + 1 > u32::MAX {
        u32::MAX as int
    } else {
        count + 1
    }
}

/// The session that `initialize_session` creates.
pub open spec fn initial_session(
    creator: [u8; 32],
    session_id: [u8; 32],
    initial_emotional_state: EmotionalVector,
    shader_params: Seq<i32>,
    now: i64,
) -> CreativeSessionView {
    CreativeSessionView {
        creator,
        session_id,
        start_time: now,
        emotional_state: initial_emotional_state,
        shader_params,
        interaction_count: 0,
        compressed_state: content_hash(initial_emotional_state),
        cross_chain_info: CrossChainInfo::unset(),
        reputation_score: HALF as int,
        emotional_complexity: HALF as int,
        creativity_index: HALF as int,
        community_engagement: 0,
        last_updated: now,
    }
}

/// What `record_performance` accepts: a vector, an intensity and a quality
/// in their domains, and no more parameters than 32 bits can count.
pub open spec fn performance_accepted(
    emotional_vector: EmotionalVector,
    shader_parameters: Seq<i32>,
    interaction_intensity: int,
    quality_score: int,
) -> bool {
    &&& emotional_vector.in_range()
    &&& shader_parameters.len() <= u32::MAX
    &&& in_unit(interaction_intensity)
    &&& in_unit(quality_score)
}

/// The session after a performance is recorded in it.
pub open spec fn session_after_performance(
    session: CreativeSessionView,
    emotional_vector: EmotionalVector,
    shader_parameters: Seq<i32>,
    quality_score: int,
    now: i64,
) -> CreativeSessionView {
    CreativeSessionView {
        emotional_state: emotional_vector,
        shader_params: shader_parameters,
        interaction_count: counted_up(session.interaction_count),
        reputation_score: moving_average(session.reputation_score, quality_score),
        last_updated: now,
        ..session
    }
}

/// The record of a performance. Impact is measured against the session's
/// state before the performance.
pub open spec fn performance_record(
    session: CreativeSessionView,
    emotional_vector: EmotionalVector,
    shader_parameters: Seq<i32>,
    interaction_intensity: int,
    quality_score: int,
    now: i64,
) -> PerformanceDataView {
    PerformanceDataView {
        session_id: session.session_id,
        timestamp: now,
        emotional_vector,
        shader_parameters,
        interaction_intensity,
        emotional_impact: emotional_impact(emotional_vector, session.emotional_state),
        creativity_boost: creativity_boost(shader_parameters, quality_score),
        quality_score,
    }
}

/// The trajectory after the session's state `leaving` has moved into it.
pub open spec fn trajectory_after_update(
    trajectory: TrajectoryView,
    leaving: EmotionalVector,
) -> TrajectoryView {
    let history = pushed(trajectory.emotional_history, leaving);
    TrajectoryView {
        emotional_history: history,
        predicted_next: predicted_next(history),
        trajectory_complexity: trajectory_complexity(history),
        update_count: counted_up(trajectory.update_count),
        ..trajectory
    }
}

/// What `update_emotional_trajectory` accepts: a new state in range, and in
/// range too the two states that the prediction is drawn from, the session's
/// current state and the newest state of the history.
pub open spec fn trajectory_update_accepted(
    trajectory: TrajectoryView,
    session: CreativeSessionView,
    new_emotional_state: EmotionalVector,
) -> bool {
    &&& new_emotional_state.in_range()
    &&& session.emotional_state.in_range()
    &&& trajectory.emotional_history.len() > 0 ==> trajectory.emotional_history.last().in_range()
}

/// The trajectory after each state of `leaving` has moved into it in turn.
pub open spec fn trajectory_after_updates(
    trajectory: TrajectoryView,
    leaving: Seq<EmotionalVector>,
) -> TrajectoryView
    decreases leaving.len(),
{
    if leaving.len() == 0 {
        trajectory
    } else {
        trajectory_after_update(
            trajectory_after_updates(trajectory, leaving.drop_last()),
            leaving.last(),
        )
    }
}

/// Any number of updates of a trajectory within its capacity leave in its
/// history the newest states of all that it held and that moved into it, in
/// the order in which they came, and never more than the capacity: each
/// update lengthens the history by one until it holds 100 states, and from
/// then on drops the oldest state for each one that comes. After 101 updates
/// of an empty trajectory the first state is gone and the other 100 remain in
/// order.
pub proof fn lemma_updates_keep_the_newest(trajectory: TrajectoryView, leaving: Seq<EmotionalVector>)
    requires
        trajectory.emotional_history.len() <= HISTORY_CAPACITY,
    ensures
        trajectory_after_updates(trajectory, leaving).emotional_history == newest(
            trajectory.emotional_history + leaving,
        ),
        trajectory_after_updates(trajectory, leaving).emotional_history.len() == min_of(
            (trajectory.emotional_history.len() + leaving.len()) as int,
            HISTORY_CAPACITY as int,
        ),
        trajectory.emotional_history.len() == 0 && leaving.len() == HISTORY_CAPACITY + 1
            ==> trajectory_after_updates(trajectory, leaving).emotional_history
            == leaving.subrange(1, leaving.len() as int),
{
    lemma_updates_push_all(trajectory, leaving);
    lemma_pushed_all_is_newest(trajectory.emotional_history, leaving);
    if trajectory.emotional_history.len() == 0 {
        assert(trajectory.emotional_history + leaving =~= leaving);
    }
}

/// The history after a number of updates is the history after as many
/// pushes.
proof fn lemma_updates_push_all(trajectory: TrajectoryView, leaving: Seq<EmotionalVector>)
    ensures
        trajectory_after_updates(trajectory, leaving).emotional_history == pushed_all(
            trajectory.emotional_history,
            leaving,
        ),
    decreases leaving.len(),
{
    if leaving.len() > 0 {
        lemma_updates_push_all(trajectory, leaving.drop_last());
    }
}

/// The session after its content hash is recomputed from its current state.
pub open spec fn session_after_compression(session: CreativeSessionView) -> CreativeSessionView {
    CreativeSessionView { compressed_state: content_hash(session.emotional_state), ..session }
}

/// Recomputing the content hash twice is the same as recomputing it once.
pub proof fn lemma_compression_idempotent(session: CreativeSessionView)
    ensures
        session_after_compression(session_after_compression(session)) == session_after_compression(
            session,
        ),
{
}

impl CreativeSession {
    /// The state is in range and the three scores lie between 0.0 and 1.0.
    pub open spec fn wf(&self) -> bool {
        &&& self.emotional_state.in_range()
        &&& in_unit(self.reputation_score as int)
        &&& in_unit(self.emotional_complexity as int)
        &&& in_unit(self.creativity_index as int)
    }

    /// Tells whether the session is well formed.
    pub fn is_wf(&self) -> (ok: bool)
        ensures
            ok == self.wf(),
    {
        self.emotional_state.is_in_range() && 0 <= self.reputation_score && self.reputation_score
            <= ONE && 0 <= self.emotional_complexity && self.emotional_complexity <= ONE && 0
            <= self.creativity_index && self.creativity_index <= ONE
    }
}

/// Starts a session in the given emotional state. The session begins with
/// reputation, complexity and creativity at 0.5, no interactions, and the
/// content hash of its state. A state out of range is rejected.
pub fn initialize_session(
    creator: [u8; 32],
    session_id: [u8; 32],
    initial_emotional_state: EmotionalVector,
    shader_params: Vec<i32>,
    now: i64,
) -> (result: Result<CreativeSession, SessionError>)
    ensures
        match result {
            Ok(session) => {
                &&& initial_emotional_state.in_range()
                &&& session@ == initial_session(
                    creator,
                    session_id,
                    initial_emotional_state,
                    shader_params@,
                    now,
                )
                &&& session.wf()
            },
            Err(e) => e == SessionError::InvalidRange && !initial_emotional_state.in_range(),
        },
{
    if !initial_emotional_state.is_in_range() {
        return Err(SessionError::InvalidRange);
    }
    let compressed_state = hash_emotional_state(&initial_emotional_state);
    let session = CreativeSession {
        creator,
        session_id,
        start_time: now,
        emotional_state: initial_emotional_state,
        shader_params,
        interaction_count: 0,
        compressed_state,
        cross_chain_info: CrossChainInfo::default(),
        reputation_score: HALF,
        emotional_complexity: HALF,
        creativity_index: HALF,
        community_engagement: 0,
        last_updated: now,
    };
    Ok(session)
}

/// Records a performance in a session. The performance's impact is measured
/// against the session's state before it; then the session takes the new
/// state and parameters, counts the interaction and moves its reputation a
/// tenth of the way to the quality score. Input outside its domain is
/// rejected and the session left as it was.
pub fn record_performance(
    session: &mut CreativeSession,
    emotional_vector: EmotionalVector,
    shader_parameters: Vec<i32>,
    interaction_intensity: i32,
    quality_score: i32,
    now: i64,
) -> (result: Result<PerformanceData, SessionError>)
    ensures
        match result {
            Ok(performance) => {
                &&& performance_accepted(
                    emotional_vector,
                    shader_parameters@,
                    interaction_intensity as int,
                    quality_score as int,
                )
                &&& performance@ == performance_record(
                    old(session)@,
                    emotional_vector,
                    shader_parameters@,
                    interaction_intensity as int,
                    quality_score as int,
                    now,
                )
                &&& final(session)@ == session_after_performance(
                    old(session)@,
                    emotional_vector,
                    shader_parameters@,
                    quality_score as int,
                    now,
                )
            },
            Err(e) => {
                &&& e == SessionError::InvalidRange
                &&& !performance_accepted(
                    emotional_vector,
                    shader_parameters@,
                    interaction_intensity as int,
                    quality_score as int,
                )
                &&& *final(session) == *old(session)
            },
        },
        old(session).wf() ==> final(session).wf(),
        final(session).interaction_count >= old(session).interaction_count,
{
    if !emotional_vector.is_in_range() || shader_parameters.len() > u32::MAX as usize
        || interaction_intensity < 0 || interaction_intensity > ONE || quality_score < 0
        || quality_score > ONE {
        return Err(SessionError::InvalidRange);
    }
    let emotional_impact = calculate_emotional_impact(&emotional_vector, &session.emotional_state);
    let creativity_boost = calculate_creativity_boost(shader_parameters.as_slice(), quality_score);
    let performance = PerformanceData {
        session_id: session.session_id,
        timestamp: now,
        emotional_vector,
        shader_parameters: shader_parameters.clone(),
        interaction_intensity,
        emotional_impact,
        creativity_boost,
        quality_score,
    };
    session.emotional_state = emotional_vector;
    session.shader_params = shader_parameters;
    session.interaction_count = session.interaction_count.saturating_add(1);
    session.last_updated = now;
    session.reputation_score = update_reputation(session.reputation_score, quality_score);
    Ok(performance)
}

/// Moves the session's current state into the trajectory and makes
/// `new_emotional_state` the session's state. The trajectory's prediction and
/// complexity are recomputed over the history that now ends with the state
/// that was replaced, and the session takes that complexity. The update is
/// rejected, and both records left as they were, if the new state is out of
/// range, or if one of the two states that the prediction is drawn from is:
/// the session's current state or the newest state of the history.
pub fn update_emotional_trajectory(
    trajectory: &mut EmotionalTrajectory,
    session: &mut CreativeSession,
    new_emotional_state: EmotionalVector,
) -> (result: Result<(), SessionError>)
    ensures
        match result {
            Ok(()) => {
                &&& trajectory_update_accepted(old(trajectory)@, old(session)@, new_emotional_state)
                &&& final(trajectory)@ == trajectory_after_update(
                    old(trajectory)@,
                    old(session).emotional_state,
                )
                &&& final(session)@ == (CreativeSessionView {
                    emotional_state: new_emotional_state,
                    emotional_complexity: final(trajectory)@.trajectory_complexity,
                    ..old(session)@
                })
                &&& old(trajectory).emotional_history@.len() <= HISTORY_CAPACITY
                    ==> final(trajectory).emotional_history@.len() == min_of(
                    (old(trajectory).emotional_history@.len() + 1) as int,
                    HISTORY_CAPACITY as int,
                )
            },
            Err(e) => {
                &&& e == SessionError::InvalidRange
                &&& !trajectory_update_accepted(
                    old(trajectory)@,
                    old(session)@,
                    new_emotional_state,
                )
                &&& *final(trajectory) == *old(trajectory)
                &&& *final(session) == *old(session)
            },
        },
        old(trajectory).emotional_history@.len() <= HISTORY_CAPACITY
            ==> final(trajectory).emotional_history@.len() <= HISTORY_CAPACITY,
        old(trajectory).wf() ==> final(trajectory).wf(),
        old(session).wf() ==> final(session).wf(),
        final(trajectory).update_count >= old(trajectory).update_count,
{
    if !new_emotional_state.is_in_range() || !session.emotional_state.is_in_range() {
        return Err(SessionError::InvalidRange);
    }
    let held = trajectory.emotional_history.len();
    if held > 0 && !trajectory.emotional_history[held - 1].is_in_range() {
        return Err(SessionError::InvalidRange);
    }
    trajectory.push(session.emotional_state);
    trajectory.predicted_next = predict_next_emotional_state(
        trajectory.emotional_history.as_slice(),
    );
    trajectory.trajectory_complexity = calculate_trajectory_complexity(
        trajectory.emotional_history.as_slice(),
    );
    trajectory.update_count = trajectory.update_count.saturating_add(1);
    session.emotional_state = new_emotional_state;
    session.emotional_complexity = trajectory.trajectory_complexity;
    Ok(())
}

/// Recomputes the session's content hash from its current state. Nothing
/// else changes, so doing it twice is the same as doing it once.
/// `compression_target` names where the compressed state is meant to go; it
/// takes no part in the computation.
pub fn compress_emotional_state(session: &mut CreativeSession, compression_target: [u8; 32])
    ensures
        final(session)@ == session_after_compression(old(session)@),
        old(session).wf() ==> final(session).wf(),
{
    let compressed_hash = hash_emotional_state(&session.emotional_state);
    session.compressed_state = compressed_hash;
}

} // verus!
