//! The trajectory buffer: a bounded history of emotional vectors, the
//! trend-based prediction of the next one, and the complexity of the path.

use vstd::prelude::*;
use crate::fixed::floor_sqrt;
use crate::fixed::in_unit;
use crate::fixed::isqrt;
use crate::fixed::lemma_floor_sqrt_exists;
use crate::fixed::min_of;
use crate::fixed::HALF;
use crate::fixed::ONE;
use crate::vector::EmotionalVector;

verus! {

/// The most emotional vectors a history holds.
pub const HISTORY_CAPACITY: usize = 100;

/// The confidence of a predicted vector, 0.7: derived, not observed.
pub const PREDICTION_CONFIDENCE: i32 = 700_000;

/// The seconds between the newest observation and the predicted one.
pub const PREDICTION_INTERVAL: i64 = 60;

/// The trajectory of one session.
#[derive(Clone, Debug, PartialEq, Eq)]
pub struct EmotionalTrajectory {
    /// The session this trajectory belongs to.
    pub session_id: [u8; 32],
    /// The most recent emotional states, oldest first.
    pub emotional_history: Vec<EmotionalVector>,
    /// The predicted next state.
    pub predicted_next: EmotionalVector,
    /// The complexity of the path through the history, in millionths.
    pub trajectory_complexity: i32,
    /// The number of updates made, which may exceed the history's length.
    pub update_count: u32,
}

/// The mathematical value of an [`EmotionalTrajectory`].
pub struct TrajectoryView {
    pub session_id: [u8; 32],
    pub emotional_history: Seq<EmotionalVector>,
    pub predicted_next: EmotionalVector,
    pub trajectory_complexity: int,
    pub update_count: int,
}

impl View for EmotionalTrajectory {
    type V = TrajectoryView;

    open spec fn view(&self) -> TrajectoryView {
        TrajectoryView {
            session_id: self.session_id,
            emotional_history: self.emotional_history@,
            predicted_next: self.predicted_next,
            trajectory_complexity: self.trajectory_complexity as int,
            update_count: self.update_count as int,
        }
    }
}

/// Every vector of the history lies in its documented domain.
pub open spec fn all_in_range(history: Seq<EmotionalVector>) -> bool {
    forall|i: int| 0 <= i < history.len() ==> (#[trigger] history[i]).in_range()
}

/// The history after `vector` is appended: if that makes it longer than the
/// capacity, the oldest vector is dropped.
pub open spec fn pushed(history: Seq<EmotionalVector>, vector: EmotionalVector) -> Seq<
    EmotionalVector,
> {
    let appended = history.push(vector);
    if appended.len() > HISTORY_CAPACITY {
        appended.drop_first()
    } else {
        appended
    }
}

/// The history after each vector of `vectors` is pushed in turn.
pub open spec fn pushed_all(history: Seq<EmotionalVector>, vectors: Seq<EmotionalVector>) -> Seq<
    EmotionalVector,
>
    decreases vectors.len(),
{
    if vectors.len() == 0 {
        history
    } else {
        pushed(pushed_all(history, vectors.drop_last()), vectors.last())
    }
}

/// The newest vectors of `all`, at most the capacity, in their order.
pub open spec fn newest(all: Seq<EmotionalVector>) -> Seq<EmotionalVector> {
    if all.len() <= HISTORY_CAPACITY {
        all
    } else {
        all.subrange(all.len() - HISTORY_CAPACITY, all.len() as int)
    }
}

/// `last + (last - previous)`: the value that continues the trend.
pub open spec fn extrapolated(last: int, previous: int) -> int {
    last + (last - previous)
}

/// The extrapolation of every coordinate of the two newest vectors fits the
/// width of a coordinate. It does whenever both vectors are in range.
pub open spec fn extrapolation_fits(last: EmotionalVector, previous: EmotionalVector) -> bool {
    &&& i32::MIN <= extrapolated(last.valence as int, previous.valence as int) <= i32::MAX
    &&& i32::MIN <= extrapolated(last.arousal as int, previous.arousal as int) <= i32::MAX
    &&& i32::MIN <= extrapolated(last.dominance as int, previous.dominance as int) <= i32::MAX
}

/// The timestamp a prediction carries: one interval after `last`, held at the
/// largest timestamp there is.
pub open spec fn predicted_timestamp(last: int) -> int {
    if last + PREDICTION_INTERVAL > i64::MAX {
        i64::MAX as int
    } else {
        last + PREDICTION_INTERVAL
    }
}

/// The predicted next state. With fewer than two vectors there is no trend,
/// and the prediction is the zero vector with confidence 0. Otherwise each of
/// valence, arousal and dominance continues the step between the two newest
/// vectors, without smoothing or clamping.
pub open spec fn predicted_next(history: Seq<EmotionalVector>) -> EmotionalVector {
    if history.len() < 2 {
        EmotionalVector::zero()
    } else {
        let last = history[history.len() - 1];
        let previous = history[history.len() - 2];
        EmotionalVector {
            valence: extrapolated(last.valence as int, previous.valence as int) as i32,
            arousal: extrapolated(last.arousal as int, previous.arousal as int) as i32,
            dominance: extrapolated(last.dominance as int, previous.dominance as int) as i32,
            confidence: PREDICTION_CONFIDENCE,
            timestamp: predicted_timestamp(last.timestamp as int) as i64,
        }
    }
}

/// The squared Euclidean distance between two vectors in the space of
/// valence, arousal and dominance.
pub open spec fn squared_distance(a: EmotionalVector, b: EmotionalVector) -> int {
    (b.valence - a.valence) * (b.valence - a.valence) + (b.arousal - a.arousal) * (b.arousal
        - a.arousal) + (b.dominance - a.dominance) * (b.dominance - a.dominance)
}

/// The Euclidean distance between two vectors, rounded down.
pub open spec fn step_distance(a: EmotionalVector, b: EmotionalVector) -> int {
    floor_sqrt(squared_distance(a, b))
}

/// The length of the path through a history: the sum of the distances
/// between consecutive vectors.
pub open spec fn path_length(history: Seq<EmotionalVector>) -> int
    decreases history.len(),
{
    if history.len() < 2 {
        0
    } else {
        path_length(history.drop_last()) + step_distance(
            history[history.len() - 2],
            history[history.len() - 1],
        )
    }
}

/// The complexity of a trajectory: 0.5 for fewer than two vectors, else the
/// mean distance between consecutive vectors, capped at 1.0. It measures mean
/// step length, not variance: two histories with equal mean step length have
/// equal complexity however differently they move.
pub open spec fn trajectory_complexity(history: Seq<EmotionalVector>) -> int {
    if history.len() < 2 {
        HALF as int
    } else {
        min_of(ONE as int, path_length(history) / (history.len() - 1))
    }
}

/// Pushing a vector keeps a history within its capacity, and keeps its
/// vectors in range if the pushed one is.
pub proof fn lemma_pushed_bounded(history: Seq<EmotionalVector>, vector: EmotionalVector)
    requires
        history.len() <= HISTORY_CAPACITY,
    ensures
        pushed(history, vector).len() <= HISTORY_CAPACITY,
        pushed(history, vector).len() >= 1,
        pushed(history, vector).last() == vector,
        all_in_range(history) && vector.in_range() ==> all_in_range(pushed(history, vector)),
{
}

/// Pushing any number of vectors onto a history within its capacity leaves
/// the newest vectors of the whole sequence, in insertion order, and never
/// more than the capacity. After 101 pushes onto an empty history, the first
/// pushed vector is gone and the other 100 remain in order.
pub proof fn lemma_pushed_all_is_newest(history: Seq<EmotionalVector>, vectors: Seq<EmotionalVector>)
    requires
        history.len() <= HISTORY_CAPACITY,
    ensures
        pushed_all(history, vectors) == newest(history + vectors),
        pushed_all(history, vectors).len() <= HISTORY_CAPACITY,
    decreases vectors.len(),
{
    if vectors.len() == 0 {
        assert(history + vectors =~= history);
    } else {
        let init = vectors.drop_last();
        lemma_pushed_all_is_newest(history, init);
        assert((history + init).push(vectors.last()) =~= history + vectors);
        assert(pushed(newest(history + init), vectors.last()) =~= newest(history + vectors));
    }
}

/// The path through a history is never of negative length.
pub proof fn lemma_path_length_nonnegative(history: Seq<EmotionalVector>)
    ensures
        path_length(history) >= 0,
    decreases history.len(),
{
    if history.len() >= 2 {
        lemma_path_length_nonnegative(history.drop_last());
        let a = history[history.len() - 2];
        let b = history[history.len() - 1];
        lemma_squared_distance_bounds(a, b);
        lemma_floor_sqrt_exists(squared_distance(a, b));
    }
}

/// The complexity of any trajectory lies between 0.0 and 1.0.
pub proof fn lemma_trajectory_complexity_in_unit(history: Seq<EmotionalVector>)
    ensures
        in_unit(trajectory_complexity(history)),
{
    if history.len() >= 2 {
        lemma_path_length_nonnegative(history);
        let p = path_length(history);
        let n = history.len() - 1;
        assert(p / n >= 0) by (nonlinear_arith)
            requires
                p >= 0,
                n > 0,
        ;
    }
}

/// The square of a difference of two coordinates fits in 65 bits, so the
/// squared distance between two vectors is never negative and fits well
/// within 128 bits.
proof fn lemma_squared_distance_bounds(a: EmotionalVector, b: EmotionalVector)
    ensures
        0 <= (b.valence - a.valence) * (b.valence - a.valence) <= 0x1_0000_0000_0000_0000,
        0 <= (b.arousal - a.arousal) * (b.arousal - a.arousal) <= 0x1_0000_0000_0000_0000,
        0 <= (b.dominance - a.dominance) * (b.dominance - a.dominance) <= 0x1_0000_0000_0000_0000,
        0 <= squared_distance(a, b) <= 3 * 0x1_0000_0000_0000_0000,
{
    let dv = b.valence - a.valence;
    let da = b.arousal - a.arousal;
    let dd = b.dominance - a.dominance;
    assert(0 <= dv * dv <= 0x1_0000_0000_0000_0000) by (nonlinear_arith)
        requires
            -0x1_0000_0000 <= dv <= 0x1_0000_0000,
    ;
    assert(0 <= da * da <= 0x1_0000_0000_0000_0000) by (nonlinear_arith)
        requires
            -0x1_0000_0000 <= da <= 0x1_0000_0000,
    ;
    assert(0 <= dd * dd <= 0x1_0000_0000_0000_0000) by (nonlinear_arith)
        requires
            -0x1_0000_0000 <= dd <= 0x1_0000_0000,
    ;
}

/// The Euclidean distance between two vectors, rounded down.
fn distance_between(a: &EmotionalVector, b: &EmotionalVector) -> (d: u64)
    ensures
        d == step_distance(*a, *b),
        d <= 0x2_0000_0000,
{
    let dv: i128 = b.valence as i128 - a.valence as i128;
    let da: i128 = b.arousal as i128 - a.arousal as i128;
    let dd: i128 = b.dominance as i128 - a.dominance as i128;
    proof {
        lemma_squared_distance_bounds(*a, *b);
    }
    let change: i128 = dv * dv + da * da + dd * dd;
    let root = isqrt(change as u128);
    proof {
        assert(root <= 0x2_0000_0000) by (nonlinear_arith)
            requires
                root * root <= change,
                change <= 3 * 0x1_0000_0000_0000_0000,
                root >= 0,
        ;
    }
    root
}

/// The predicted next state of a history.
pub fn predict_next_emotional_state(history: &[EmotionalVector]) -> (next: EmotionalVector)
    requires
        history.len() >= 2 ==> extrapolation_fits(
            history@[history.len() - 1],
            history@[history.len() - 2],
        ),
    ensures
        next == predicted_next(history@),
        history.len() < 2 ==> next == EmotionalVector::zero(),
        history.len() >= 2 ==> {
            let last = history@[history.len() - 1];
            let previous = history@[history.len() - 2];
            &&& next.valence == extrapolated(last.valence as int, previous.valence as int)
            &&& next.arousal == extrapolated(last.arousal as int, previous.arousal as int)
            &&& next.dominance == extrapolated(last.dominance as int, previous.dominance as int)
            &&& next.confidence == PREDICTION_CONFIDENCE
            &&& next.timestamp == predicted_timestamp(last.timestamp as int)
        },
{
    let n = history.len();
    if n < 2 {
        return EmotionalVector { valence: 0, arousal: 0, dominance: 0, confidence: 0, timestamp: 0 };
    }
    let last = &history[n - 1];
    let second_last = &history[n - 2];
    let timestamp: i64 = if last.timestamp > i64::MAX - PREDICTION_INTERVAL {
        i64::MAX
    } else {
        last.timestamp + PREDICTION_INTERVAL
    };
    EmotionalVector {
        valence: (last.valence as i64 + (last.valence as i64 - second_last.valence as i64)) as i32,
        arousal: (last.arousal as i64 + (last.arousal as i64 - second_last.arousal as i64)) as i32,
        dominance: (last.dominance as i64 + (last.dominance as i64 - second_last.dominance as i64))
            as i32,
        confidence: PREDICTION_CONFIDENCE,
        timestamp,
    }
}

/// The complexity of the path through a history.
pub fn calculate_trajectory_complexity(history: &[EmotionalVector]) -> (complexity: i32)
    ensures
        complexity == trajectory_complexity(history@),
        in_unit(complexity as int),
        history.len() < 2 ==> complexity == HALF,
{
    let n = history.len();
    if n < 2 {
        return HALF;
    }
    let mut total_change: u128 = 0;
    let mut i: usize = 1;
    while i < n
        invariant
            1 <= i <= n,
            n == history.len(),
            total_change == path_length(history@.take(i as int)),
            total_change <= (i - 1) * 0x2_0000_0000,
        decreases n - i,
    {
        let change = distance_between(&history[i - 1], &history[i]);
        proof {
            assert(history@.take(i + 1).drop_last() =~= history@.take(i as int));
        }
        total_change = total_change + change as u128;
        i = i + 1;
    }
    proof {
        assert(history@.take(n as int) =~= history@);
    }
    let mean = total_change / ((n - 1) as u128);
    if mean >= ONE as u128 {
        ONE
    } else {
        mean as i32
    }
}

impl EmotionalTrajectory {
    /// The history is within its capacity, its vectors are in range, and the
    /// complexity lies between 0.0 and 1.0.
    pub open spec fn wf(&self) -> bool {
        &&& self.emotional_history@.len() <= HISTORY_CAPACITY
        &&& all_in_range(self.emotional_history@)
        &&& in_unit(self.trajectory_complexity as int)
    }

    /// An empty trajectory for a session: no history, the zero vector as
    /// prediction, complexity 0 and no updates.
    pub fn new(session_id: [u8; 32]) -> (trajectory: EmotionalTrajectory)
        ensures
            trajectory@ == (TrajectoryView {
                session_id,
                emotional_history: Seq::empty(),
                predicted_next: EmotionalVector::zero(),
                trajectory_complexity: 0,
                update_count: 0,
            }),
            trajectory.wf(),
    {
        EmotionalTrajectory {
            session_id,
            emotional_history: Vec::new(),
            predicted_next: EmotionalVector {
                valence: 0,
                arousal: 0,
                dominance: 0,
                confidence: 0,
                timestamp: 0,
            },
            trajectory_complexity: 0,
            update_count: 0,
        }
    }

    /// Tells whether the trajectory is well formed.
    pub fn is_wf(&self) -> (ok: bool)
        ensures
            ok == self.wf(),
    {
        if self.emotional_history.len() > HISTORY_CAPACITY {
            return false;
        }
        if self.trajectory_complexity < 0 || self.trajectory_complexity > ONE {
            return false;
        }
        let n = self.emotional_history.len();
        let mut i: usize = 0;
        while i < n
            invariant
                0 <= i <= n,
                n == self.emotional_history.len(),
                all_in_range(self.emotional_history@.take(i as int)),
            decreases n - i,
        {
            if !self.emotional_history[i].is_in_range() {
                return false;
            }
            proof {
                let grown = self.emotional_history@.take(i + 1);
                assert forall|j: int| 0 <= j < grown.len() implies (#[trigger] grown[j]).in_range() by {
                    if j < i {
                        assert(grown[j] == self.emotional_history@.take(i as int)[j]);
                    }
                }
            }
            i = i + 1;
        }
        proof {
            assert(self.emotional_history@.take(n as int) =~= self.emotional_history@);
        }
        true
    }

    /// Appends a vector to the history and, if that exceeds the capacity,
    /// drops the oldest one. A history within its capacity grows by one
    /// until it holds 100 vectors and never holds more.
    pub fn push(&mut self, vector: EmotionalVector)
        ensures
            final(self)@ == (TrajectoryView {
                emotional_history: pushed(old(self)@.emotional_history, vector),
                ..old(self)@
            }),
            old(self)@.emotional_history.len() <= HISTORY_CAPACITY
                ==> final(self)@.emotional_history.len() == min_of(
                (old(self)@.emotional_history.len() + 1) as int,
                HISTORY_CAPACITY as int,
            ),
            old(self)@.emotional_history.len() <= HISTORY_CAPACITY
                ==> final(self)@.emotional_history.len() <= HISTORY_CAPACITY,
            final(self)@.emotional_history.last() == vector,
            old(self).wf() && vector.in_range() ==> final(self).wf(),
    {
        self.emotional_history.push(vector);
        if self.emotional_history.len() > HISTORY_CAPACITY {
            self.emotional_history.remove(0);
        }
        proof {
            assert(self.emotional_history@ =~= pushed(old(self)@.emotional_history, vector));
        }
    }
}

} // verus!
