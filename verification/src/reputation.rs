//! The reputation accumulator: a creator's reputation and running-mean
//! creativity across sessions.

use vstd::prelude::*;
use crate::fixed::floor_div;
use crate::fixed::in_unit;
use crate::fixed::lemma_floor_div_bounds;
use crate::fixed::lemma_weighted_mean_between;
use crate::fixed::min_of;
use crate::fixed::ONE;
use crate::scoring::calculate_emotional_consistency;
use crate::scoring::emotional_consistency;
use crate::scoring::update_reputation;
use crate::session::counted_up;
use crate::session::CreativeSession;
use crate::session::SessionError;

verus! {

/// A creator's standing across all of their sessions.
#[derive(Clone, Copy, Debug, PartialEq, Eq)]
pub struct CreatorReputation {
    /// The creator.
    pub creator: [u8; 32],
    /// The overall reputation, from 0.0 to 1.0.
    pub reputation_score: i32,
    /// The interactions of all sessions applied, held at the largest value
    /// of its 64 bits.
    pub total_interactions: u64,
    /// When the reputation was last updated.
    pub last_updated: i64,
    /// The emotional consistency that goes with the reputation.
    pub emotional_consistency: i32,
    /// The running mean of the creativity of the sessions applied.
    pub creativity_score: i32,
    /// The creator's rank in the community.
    pub community_rank: u32,
    /// The number of sessions applied.
    pub total_sessions: u32,
}

/// The mathematical value of a [`CreatorReputation`].
pub struct CreatorReputationView {
    pub creator: [u8; 32],
    pub reputation_score: int,
    pub total_interactions: int,
    pub last_updated: i64,
    pub emotional_consistency: int,
    pub creativity_score: int,
    pub community_rank: int,
    pub total_sessions: int,
}

impl View for CreatorReputation {
    type V = CreatorReputationView;

    open spec fn view(&self) -> CreatorReputationView {
        CreatorReputationView {
            creator: self.creator,
            reputation_score: self.reputation_score as int,
            total_interactions: self.total_interactions as int,
            last_updated: self.last_updated,
            emotional_consistency: self.emotional_consistency as int,
            creativity_score: self.creativity_score as int,
            community_rank: self.community_rank as int,
            total_sessions: self.total_sessions as int,
        }
    }
}

/// The running mean after one more sample: the mean so far weighted by the
/// number of samples before this one, `count - 1`, plus the sample, over
/// `count`, the number of samples including this one.
pub open spec fn running_mean(mean: int, count: int, sample: int) -> int {
    (mean * (count - 1) + sample) / count
}

/// The running mean after each sample of `samples` has been taken in turn,
/// starting from `mean` over `count` earlier samples.
pub open spec fn running_mean_after(mean: int, count: int, samples: Seq<int>) -> int
    decreases samples.len(),
{
    if samples.len() == 0 {
        mean
    } else {
        running_mean(
            running_mean_after(mean, count, samples.drop_last()),
            count + samples.len(),
            samples.last(),
        )
    }
}

/// The sum of a sequence of samples.
pub open spec fn total(samples: Seq<int>) -> int
    decreases samples.len(),
{
    if samples.len() == 0 {
        0
    } else {
        total(samples.drop_last()) + samples.last()
    }
}

/// A sum of interactions, held at the largest value of its 64 bits.
pub open spec fn interactions_added(total_interactions: int, interaction_count: int) -> int {
    if total_interactions + interaction_count > u64::MAX {
        u64::MAX as int
    } else {
        total_interactions + interaction_count
    }
}

/// The reputation after a session is applied to it. The number of sessions
/// is counted up first; the creativity score is then the running mean over
/// that new number.
pub open spec fn reputation_after_session(
    reputation: CreatorReputationView,
    interaction_count: int,
    creativity_index: int,
    session_performance: int,
    now: i64,
) -> CreatorReputationView {
    let reputation_score = (9 * reputation.reputation_score + session_performance) / 10;
    let total_sessions = counted_up(reputation.total_sessions);
    CreatorReputationView {
        reputation_score,
        total_interactions: interactions_added(reputation.total_interactions, interaction_count),
        last_updated: now,
        emotional_consistency: emotional_consistency(reputation_score),
        creativity_score: running_mean(
            reputation.creativity_score,
            total_sessions,
            creativity_index,
        ),
        total_sessions,
        ..reputation
    }
}

/// What one session contributes when it is applied to a reputation.
pub struct AppliedSession {
    pub interaction_count: int,
    pub creativity_index: int,
    pub session_performance: int,
    pub now: i64,
}

/// The reputation after each session of `sessions` has been applied in turn.
pub open spec fn reputation_after_sessions(
    reputation: CreatorReputationView,
    sessions: Seq<AppliedSession>,
) -> CreatorReputationView
    decreases sessions.len(),
{
    if sessions.len() == 0 {
        reputation
    } else {
        let last = sessions.last();
        reputation_after_session(
            reputation_after_sessions(reputation, sessions.drop_last()),
            last.interaction_count,
            last.creativity_index,
            last.session_performance,
            last.now,
        )
    }
}

/// The creativity indices of a sequence of sessions.
pub open spec fn creativity_indices(sessions: Seq<AppliedSession>) -> Seq<int> {
    Seq::new(sessions.len(), |i: int| sessions[i].creativity_index)
}

/// The first sample replaces whatever mean there was: over no earlier
/// samples the old mean has weight zero.
pub proof fn lemma_running_mean_first(mean: int, sample: int)
    ensures
        running_mean(mean, 1, sample) == sample,
{
}

/// A mean that equals the sample stays where it is.
pub proof fn lemma_running_mean_fixed_point(mean: int, count: int)
    requires
        count >= 1,
    ensures
        running_mean(mean, count, mean) == mean,
{
    assert(mean * (count - 1) + mean == mean * count) by (nonlinear_arith);
    vstd::arithmetic::div_mod::lemma_div_multiples_vanish(mean, count);
    assert(mean * count == count * mean) by (nonlinear_arith);
}

/// The running mean never overshoots: it lies between the mean so far and
/// the sample.
pub proof fn lemma_running_mean_between(mean: int, count: int, sample: int)
    requires
        count >= 1,
    ensures
        min_of(mean, sample) <= running_mean(mean, count, sample),
        running_mean(mean, count, sample) <= if mean <= sample {
            sample
        } else {
            mean
        },
{
    lemma_weighted_mean_between(mean, sample, count - 1);
}

/// Starting from no sessions, any number of sessions with one and the same
/// creativity leave exactly that creativity as the running mean, whatever the
/// mean was before.
pub proof fn lemma_running_mean_of_constant(mean: int, samples: Seq<int>, c: int)
    requires
        samples.len() >= 1,
        forall|i: int| 0 <= i < samples.len() ==> samples[i] == c,
    ensures
        running_mean_after(mean, 0, samples) == c,
    decreases samples.len(),
{
    if samples.len() == 1 {
        assert(samples.drop_last().len() == 0);
        assert(running_mean_after(mean, 0, samples.drop_last()) == mean);
        lemma_running_mean_first(mean, c);
    } else {
        lemma_running_mean_of_constant(mean, samples.drop_last(), c);
        lemma_running_mean_fixed_point(c, samples.len() as int);
    }
}

/// From any starting point, sessions with one and the same creativity `c`
/// move the running mean towards `c` and never past it.
pub proof fn lemma_running_mean_approaches(mean: int, count: int, samples: Seq<int>, c: int)
    requires
        count >= 0,
        forall|i: int| 0 <= i < samples.len() ==> samples[i] == c,
    ensures
        mean <= c ==> mean <= running_mean_after(mean, count, samples) <= c,
        c <= mean ==> c <= running_mean_after(mean, count, samples) <= mean,
    decreases samples.len(),
{
    if samples.len() > 0 {
        let init = samples.drop_last();
        lemma_running_mean_approaches(mean, count, init, c);
        lemma_running_mean_between(
            running_mean_after(mean, count, init),
            count + samples.len(),
            c,
        );
    }
}

/// From above, every session with creativity `c` brings the running mean at
/// least one millionth closer to `c`, so after `mean - c` such sessions the
/// running mean is exactly `c`. (From below, rounding down can hold the mean
/// short of `c`: with 99 earlier sessions, a mean of 9 stays 9 under any
/// number of sessions with creativity 10.)
pub proof fn lemma_running_mean_descends(mean: int, count: int, samples: Seq<int>, c: int)
    requires
        count >= 0,
        c <= mean,
        forall|i: int| 0 <= i < samples.len() ==> samples[i] == c,
    ensures
        c <= running_mean_after(mean, count, samples),
        running_mean_after(mean, count, samples) <= if mean - samples.len() >= c {
            mean - samples.len()
        } else {
            c
        },
        samples.len() >= mean - c ==> running_mean_after(mean, count, samples) == c,
    decreases samples.len(),
{
    if samples.len() > 0 {
        let init = samples.drop_last();
        lemma_running_mean_descends(mean, count, init, c);
        let v = running_mean_after(mean, count, init);
        let n = count + samples.len();
        lemma_running_mean_between(v, n, c);
        if v == c {
            lemma_running_mean_fixed_point(c, n);
        } else {
            let t = v * (n - 1) + c;
            lemma_floor_div_bounds(t, n);
            assert(t < v * n) by (nonlinear_arith)
                requires
                    t == v * (n - 1) + c,
                    c < v,
            ;
            assert(t / n < v) by (nonlinear_arith)
                requires
                    n > 0,
                    (t / n) * n <= t,
                    t < v * n,
            ;
        }
    }
}

/// Starting from no sessions, the running mean of `n` samples is their
/// arithmetic mean up to rounding: it is never above it, and below it by at
/// most `(n - 1) / 2` millionths, the most that `n - 1` roundings down can
/// lose. It is exactly the arithmetic mean whenever no division rounds.
pub proof fn lemma_running_mean_is_arithmetic_mean(mean: int, samples: Seq<int>)
    requires
        samples.len() >= 1,
    ensures
        ({
            let n = samples.len() as int;
            let m = running_mean_after(mean, 0, samples);
            n * m <= total(samples) <= n * m + n * (n - 1) / 2
        }),
    decreases samples.len(),
{
    let n = samples.len() as int;
    let init = samples.drop_last();
    let x = samples.last();
    let m = running_mean_after(mean, 0, samples);
    if n == 1 {
        assert(init.len() == 0);
        assert(running_mean_after(mean, 0, init) == mean);
        lemma_running_mean_first(mean, x);
        assert(total(init) == 0);
    } else {
        lemma_running_mean_is_arithmetic_mean(mean, init);
        let p = running_mean_after(mean, 0, init);
        let t = total(init);
        assert(m == (p * (n - 1) + x) / n);
        lemma_floor_div_bounds(p * (n - 1) + x, n);
        assert(m * n == n * m) by (nonlinear_arith);
        assert((m + 1) * n == n * m + n) by (nonlinear_arith);
        assert(p * (n - 1) == (n - 1) * p) by (nonlinear_arith);
        assert((n - 1) * (n - 2) / 2 + (n - 1) == n * (n - 1) / 2) by (nonlinear_arith)
            requires
                n >= 2,
        ;
    }
}

/// While the number of sessions fits its 32 bits, applying sessions one
/// after another counts each of them, and leaves as creativity score the
/// running mean of their creativity indices.
pub proof fn lemma_sessions_accumulate(
    reputation: CreatorReputationView,
    sessions: Seq<AppliedSession>,
)
    requires
        0 <= reputation.total_sessions,
        reputation.total_sessions + sessions.len() <= u32::MAX,
    ensures
        reputation_after_sessions(reputation, sessions).total_sessions
            == reputation.total_sessions + sessions.len(),
        reputation_after_sessions(reputation, sessions).creativity_score == running_mean_after(
            reputation.creativity_score,
            reputation.total_sessions,
            creativity_indices(sessions),
        ),
    decreases sessions.len(),
{
    if sessions.len() > 0 {
        let init = sessions.drop_last();
        lemma_sessions_accumulate(reputation, init);
        assert(creativity_indices(sessions).drop_last() =~= creativity_indices(init));
        assert(creativity_indices(sessions).last() == sessions.last().creativity_index);
    }
}

/// Applied to a reputation with no sessions yet, any `n >= 1` sessions leave
/// `n` as the number of sessions and, as creativity score, the arithmetic
/// mean of their creativity indices up to rounding: never above it, and below
/// it by at most `(n - 1) / 2` millionths. The score that the reputation had
/// before contributes nothing. If every session has one and the same
/// creativity index `c`, the score is exactly `c` after each of them.
pub proof fn lemma_fresh_reputation_takes_the_mean(
    reputation: CreatorReputationView,
    sessions: Seq<AppliedSession>,
    c: int,
)
    requires
        reputation.total_sessions == 0,
        1 <= sessions.len() <= u32::MAX,
    ensures
        reputation_after_sessions(reputation, sessions).total_sessions == sessions.len(),
        ({
            let n = sessions.len() as int;
            let score = reputation_after_sessions(reputation, sessions).creativity_score;
            n * score <= total(creativity_indices(sessions)) <= n * score + n * (n - 1) / 2
        }),
        (forall|i: int| 0 <= i < sessions.len() ==> (#[trigger] sessions[i]).creativity_index == c)
            ==> reputation_after_sessions(reputation, sessions).creativity_score == c,
{
    lemma_sessions_accumulate(reputation, sessions);
    lemma_running_mean_is_arithmetic_mean(
        reputation.creativity_score,
        creativity_indices(sessions),
    );
    if forall|i: int| 0 <= i < sessions.len() ==> (#[trigger] sessions[i]).creativity_index == c {
        lemma_running_mean_of_constant(
            reputation.creativity_score,
            creativity_indices(sessions),
            c,
        );
    }
}

impl CreatorReputation {
    /// The reputation, its consistency and the creativity score lie between
    /// 0.0 and 1.0.
    pub open spec fn wf(&self) -> bool {
        &&& in_unit(self.reputation_score as int)
        &&& in_unit(self.emotional_consistency as int)
        &&& in_unit(self.creativity_score as int)
    }

    /// Tells whether the reputation is well formed.
    pub fn is_wf(&self) -> (ok: bool)
        ensures
            ok == self.wf(),
    {
        0 <= self.reputation_score && self.reputation_score <= ONE && 0
            <= self.emotional_consistency && self.emotional_consistency <= ONE && 0
            <= self.creativity_score && self.creativity_score <= ONE
    }

    /// The reputation of a creator to whom no session has been applied.
    pub fn new(creator: [u8; 32]) -> (reputation: CreatorReputation)
        ensures
            reputation@ == (CreatorReputationView {
                creator,
                reputation_score: 0,
                total_interactions: 0,
                last_updated: 0,
                emotional_consistency: 0,
                creativity_score: 0,
                community_rank: 0,
                total_sessions: 0,
            }),
            reputation.wf(),
    {
        CreatorReputation {
            creator,
            reputation_score: 0,
            total_interactions: 0,
            last_updated: 0,
            emotional_consistency: 0,
            creativity_score: 0,
            community_rank: 0,
            total_sessions: 0,
        }
    }
}

/// Applies a session to its creator's reputation: the reputation becomes
/// nine tenths of itself plus a tenth of the session's performance, the
/// session's interactions are added, the session is counted, and the
/// creativity score becomes the running mean that includes the session's
/// creativity index. A performance outside 0.0 to 1.0 is rejected and the
/// reputation left as it was.
pub fn update_creator_reputation(
    reputation: &mut CreatorReputation,
    session: &CreativeSession,
    session_performance: i32,
    now: i64,
) -> (result: Result<(), SessionError>)
    ensures
        match result {
            Ok(()) => {
                &&& in_unit(session_performance as int)
                &&& final(reputation)@ == reputation_after_session(
                    old(reputation)@,
                    session.interaction_count as int,
                    session.creativity_index as int,
                    session_performance as int,
                    now,
                )
                &&& final(reputation).total_sessions == counted_up(
                    old(reputation).total_sessions as int,
                )
                &&& final(reputation).creativity_score == running_mean(
                    old(reputation).creativity_score as int,
                    final(reputation).total_sessions as int,
                    session.creativity_index as int,
                )
                &&& old(reputation).total_sessions == 0 ==> final(reputation).creativity_score
                    == session.creativity_index
            },
            Err(e) => {
                &&& e == SessionError::InvalidRange
                &&& !in_unit(session_performance as int)
                &&& *final(reputation) == *old(reputation)
            },
        },
        old(reputation).wf() && session.wf() ==> final(reputation).wf(),
        final(reputation).total_sessions >= old(reputation).total_sessions,
        final(reputation).total_interactions >= old(reputation).total_interactions,
{
    if session_performance < 0 || session_performance > ONE {
        return Err(SessionError::InvalidRange);
    }
    reputation.reputation_score = update_reputation(
        reputation.reputation_score,
        session_performance,
    );
    reputation.total_interactions = reputation.total_interactions.saturating_add(
        session.interaction_count as u64,
    );
    reputation.last_updated = now;
    reputation.total_sessions = reputation.total_sessions.saturating_add(1);
    reputation.emotional_consistency = calculate_emotional_consistency(
        reputation.reputation_score,
    );
    let count: i64 = reputation.total_sessions as i64;
    let old_score: i64 = reputation.creativity_score as i64;
    proof {
        lemma_running_mean_between(
            old_score as int,
            count as int,
            session.creativity_index as int,
        );
        lemma_running_mean_first(old_score as int, session.creativity_index as int);
        assert(-0x8000_0000 * 0xFFFF_FFFE <= old_score * (count - 1) <= 0x8000_0000
            * 0xFFFF_FFFE) by (nonlinear_arith)
            requires
                -0x8000_0000 <= old_score <= 0x8000_0000,
                0 <= count - 1 <= 0xFFFF_FFFE,
        ;
    }
    reputation.creativity_score = floor_div(
        old_score * (count - 1) + session.creativity_index as i64,
        count,
    ) as i32;
    Ok(())
}

} // verus!
