//! Emotional metadata of assets: the registry that counts the records, the
//! records themselves, and the analysis of emotional patterns: stability and
//! the classification of an averaged state.

use vstd::prelude::*;
use crate::fixed::in_unit;
use crate::fixed::min_of;
use crate::fixed::HALF;
use crate::fixed::ONE;

verus! {

/// Why a transition was rejected.
#[derive(Clone, Copy, Debug, PartialEq, Eq, Structural)]
pub enum ErrorCode {
    /// The caller does not own the record.
    Unauthorized,
    /// A coordinate of an emotion vector, or a confidence, lies outside 0.0
    /// to 1.0, or there is no vector to average.
    InvalidEmotionVector,
    /// The biometric signature is invalid.
    InvalidBiometricSignature,
    /// The confidence is too low.
    LowAIConfidence,
    /// The asset was not found.
    NFTMintNotFound,
    /// The emotional metadata was not found.
    MetadataNotFound,
}

impl ErrorCode {
    /// The message that goes with the error.
    pub open spec fn message_of(self) -> Seq<char> {
        match self {
            ErrorCode::Unauthorized => "Unauthorized access"@,
            ErrorCode::InvalidEmotionVector => "Invalid emotional vector values"@,
            ErrorCode::InvalidBiometricSignature => "Biometric signature invalid"@,
            ErrorCode::LowAIConfidence => "AI confidence too low"@,
            ErrorCode::NFTMintNotFound => "NFT mint not found"@,
            ErrorCode::MetadataNotFound => "Emotional metadata not found"@,
        }
    }

    /// The message that goes with the error.
    pub fn message(&self) -> (text: &'static str)
        ensures
            text@ == self.message_of(),
    {
        match self {
            ErrorCode::Unauthorized => "Unauthorized access",
            ErrorCode::InvalidEmotionVector => "Invalid emotional vector values",
            ErrorCode::InvalidBiometricSignature => "Biometric signature invalid",
            ErrorCode::LowAIConfidence => "AI confidence too low",
            ErrorCode::NFTMintNotFound => "NFT mint not found",
            ErrorCode::MetadataNotFound => "Emotional metadata not found",
        }
    }
}

/// An emotional state in three coordinates, each from 0.0 to 1.0.
#[derive(Clone, Copy, Debug, PartialEq, Eq, Structural)]
pub struct EmotionVector {
    /// Pleasure.
    pub valence: i32,
    /// Energy level.
    pub arousal: i32,
    /// Control level.
    pub dominance: i32,
}

/// The category of an averaged emotional state.
#[derive(Clone, Copy, Debug, PartialEq, Eq, Structural)]
pub enum PatternType {
    StablePositive,
    StableNegative,
    UnstableMixed,
    NeutralStable,
    HighEnergy,
    LowEnergy,
}

/// The registry that counts the metadata records of one authority.
#[derive(Clone, Copy, Debug, PartialEq, Eq)]
pub struct EmotionalRegistry {
    /// The registry's authority.
    pub authority: [u8; 32],
    /// The number of records stored.
    pub total_records: u64,
    /// When a record was last stored.
    pub last_update: i64,
}

/// The emotional metadata of one asset.
#[derive(Clone, Copy, Debug, PartialEq, Eq)]
pub struct EmotionalMetadata {
    /// The asset.
    pub nft_mint: [u8; 32],
    /// The record's owner.
    pub owner: [u8; 32],
    /// The emotional state.
    pub emotion_vector: EmotionVector,
    /// The biometric signature that goes with the state.
    pub biometric_signature: [u8; 64],
    /// The confidence in the state, from 0.0 to 1.0.
    pub ai_confidence: i32,
    /// When the state was last set.
    pub timestamp: i64,
    /// The record's number in its registry, counted from 1.
    pub generation: u64,
}

/// The result of analysing the emotional states of a set of assets.
#[derive(Clone, Copy, Debug, PartialEq, Eq, Structural)]
pub struct EmotionalAnalysis {
    pub average_valence: i32,
    pub average_arousal: i32,
    pub average_dominance: i32,
    pub overall_confidence: i32,
    pub emotional_stability: i32,
    pub pattern_type: PatternType,
}

/// Announces a new registry.
#[derive(Clone, Copy, Debug, PartialEq, Eq)]
pub struct RegistryInitialized {
    pub registry: [u8; 32],
    pub authority: [u8; 32],
    pub timestamp: i64,
}

/// Announces a stored metadata record.
#[derive(Clone, Copy, Debug, PartialEq, Eq)]
pub struct EmotionalMetadataStored {
    pub metadata: [u8; 32],
    pub nft_mint: [u8; 32],
    pub owner: [u8; 32],
    pub emotion_vector: EmotionVector,
    pub ai_confidence: i32,
    pub timestamp: i64,
}

/// Announces a changed emotional state.
#[derive(Clone, Copy, Debug, PartialEq, Eq)]
pub struct EmotionalStateUpdated {
    pub metadata: [u8; 32],
    pub nft_mint: [u8; 32],
    pub owner: [u8; 32],
    pub new_emotion_vector: EmotionVector,
    pub new_ai_confidence: i32,
    pub updated_at: i64,
}

/// The valence every asset contributes to an analysis, 0.5.
pub const SAMPLE_VALENCE: i32 = 500_000;

/// The arousal every asset contributes to an analysis, 0.3.
pub const SAMPLE_AROUSAL: i32 = 300_000;

/// The dominance every asset contributes to an analysis, 0.7.
pub const SAMPLE_DOMINANCE: i32 = 700_000;

/// The confidence every asset contributes to an analysis, 0.8.
pub const SAMPLE_CONFIDENCE: i32 = 800_000;

impl EmotionVector {
    /// Every coordinate lies between 0.0 and 1.0.
    pub open spec fn in_range(&self) -> bool {
        &&& in_unit(self.valence as int)
        &&& in_unit(self.arousal as int)
        &&& in_unit(self.dominance as int)
    }

    /// Tells whether every coordinate lies between 0.0 and 1.0.
    pub fn is_in_range(&self) -> (ok: bool)
        ensures
            ok == self.in_range(),
    {
        0 <= self.valence && self.valence <= ONE && 0 <= self.arousal && self.arousal <= ONE && 0
            <= self.dominance && self.dominance <= ONE
    }
}

impl EmotionalMetadata {
    /// The state and the confidence lie in their domains.
    pub open spec fn wf(&self) -> bool {
        self.emotion_vector.in_range() && in_unit(self.ai_confidence as int)
    }

    /// Tells whether the record is well formed.
    pub fn is_wf(&self) -> (ok: bool)
        ensures
            ok == self.wf(),
    {
        self.emotion_vector.is_in_range() && 0 <= self.ai_confidence && self.ai_confidence <= ONE
    }
}

/// `3 * (v^2 + a^2 + d^2) - (v + a + d)^2`: nine times the population
/// variance of the three numbers about their mean.
pub open spec fn spread_of_three(v: int, a: int, d: int) -> int {
    3 * (v * v + a * a + d * d) - (v + a + d) * (v + a + d)
}

/// Stability: 1.0 less four times the population variance of the three
/// coordinates, the latter capped at 1.0.
pub open spec fn stability(v: int, a: int, d: int) -> int {
    ONE - min_of(ONE as int, 4 * spread_of_three(v, a, d) / (9 * ONE))
}

/// The pattern of an averaged emotional state. Each coordinate is compared
/// with 0.5, which makes eight outcomes. Three of them have a name of their
/// own: all three high is `StablePositive`; low valence with high arousal and
/// high dominance is `StableNegative`; low valence with high arousal and low
/// dominance is `HighEnergy`. The other five are `UnstableMixed`, among them
/// high valence with low arousal and low dominance. `LowEnergy` and
/// `NeutralStable` are given to no state.
pub open spec fn pattern_of(v: int, a: int, d: int) -> PatternType {
    let high_valence = v > HALF;
    let high_arousal = a > HALF;
    let high_dominance = d > HALF;
    if high_valence && high_arousal && high_dominance {
        PatternType::StablePositive
    } else if !high_valence && high_arousal && high_dominance {
        PatternType::StableNegative
    } else if !high_valence && high_arousal && !high_dominance {
        PatternType::HighEnergy
    } else {
        PatternType::UnstableMixed
    }
}

/// The analysis of any non-empty set of assets: every asset contributes the
/// same sample, so the averages are the sample.
pub open spec fn sample_analysis() -> EmotionalAnalysis {
    EmotionalAnalysis {
        average_valence: SAMPLE_VALENCE,
        average_arousal: SAMPLE_AROUSAL,
        average_dominance: SAMPLE_DOMINANCE,
        overall_confidence: SAMPLE_CONFIDENCE,
        emotional_stability: stability(
            SAMPLE_VALENCE as int,
            SAMPLE_AROUSAL as int,
            SAMPLE_DOMINANCE as int,
        ) as i32,
        pattern_type: pattern_of(
            SAMPLE_VALENCE as int,
            SAMPLE_AROUSAL as int,
            SAMPLE_DOMINANCE as int,
        ),
    }
}

/// The spread of three numbers is the sum of the squares of their pairwise
/// differences, so it is never negative and is zero exactly when the three
/// are equal.
pub proof fn lemma_spread_of_three(v: int, a: int, d: int)
    ensures
        spread_of_three(v, a, d) == (v - a) * (v - a) + (a - d) * (a - d) + (v - d) * (v - d),
        spread_of_three(v, a, d) >= 0,
        spread_of_three(v, a, d) == 0 <==> (v == a && a == d),
{
    assert(spread_of_three(v, a, d) == (v - a) * (v - a) + (a - d) * (a - d) + (v - d) * (v - d))
        by (nonlinear_arith);
    assert((v - a) * (v - a) >= 0 && ((v - a) * (v - a) == 0 <==> v == a)) by (nonlinear_arith);
    assert((a - d) * (a - d) >= 0 && ((a - d) * (a - d) == 0 <==> a == d)) by (nonlinear_arith);
    assert((v - d) * (v - d) >= 0 && ((v - d) * (v - d) == 0 <==> v == d)) by (nonlinear_arith);
}

/// Stability lies between 0.0 and 1.0, and is 1.0 when the three
/// coordinates are equal.
pub proof fn lemma_stability_in_unit(v: int, a: int, d: int)
    ensures
        in_unit(stability(v, a, d)),
        v == a && a == d ==> stability(v, a, d) == ONE,
{
    lemma_spread_of_three(v, a, d);
}

/// Stability never increases when the spread grows.
pub proof fn lemma_stability_decreases_with_spread(
    v1: int,
    a1: int,
    d1: int,
    v2: int,
    a2: int,
    d2: int,
)
    requires
        spread_of_three(v1, a1, d1) <= spread_of_three(v2, a2, d2),
    ensures
        stability(v1, a1, d1) >= stability(v2, a2, d2),
{
    vstd::arithmetic::div_mod::lemma_div_is_ordered(
        4 * spread_of_three(v1, a1, d1),
        4 * spread_of_three(v2, a2, d2),
        9 * ONE,
    );
}

/// Every averaged state is classified as one of four patterns: none as
/// `NeutralStable` or `LowEnergy`. High valence with low arousal and low
/// dominance is `UnstableMixed`.
pub proof fn lemma_pattern_is_one_of_four(v: int, a: int, d: int)
    ensures
        pattern_of(v, a, d) != PatternType::NeutralStable,
        pattern_of(v, a, d) != PatternType::LowEnergy,
        v > HALF && a <= HALF && d <= HALF ==> pattern_of(v, a, d) == PatternType::UnstableMixed,
{
}

/// The stability of three coordinates.
pub fn calculate_stability(valence: i32, arousal: i32, dominance: i32) -> (result: i32)
    ensures
        result == stability(valence as int, arousal as int, dominance as int),
        in_unit(result as int),
{
    let v: i128 = valence as i128;
    let a: i128 = arousal as i128;
    let d: i128 = dominance as i128;
    proof {
        lemma_spread_of_three(v as int, a as int, d as int);
        assert(0 <= v * v <= 0x4000_0000_0000_0000) by (nonlinear_arith)
            requires
                -0x8000_0000 <= v <= 0x8000_0000,
        ;
        assert(0 <= a * a <= 0x4000_0000_0000_0000) by (nonlinear_arith)
            requires
                -0x8000_0000 <= a <= 0x8000_0000,
        ;
        assert(0 <= d * d <= 0x4000_0000_0000_0000) by (nonlinear_arith)
            requires
                -0x8000_0000 <= d <= 0x8000_0000,
        ;
        assert(0 <= (v + a + d) * (v + a + d) <= 0x1_8000_0000 * 0x1_8000_0000)
            by (nonlinear_arith)
            requires
                -0x1_8000_0000 <= v + a + d <= 0x1_8000_0000,
        ;
    }
    let squares: i128 = v * v + a * a + d * d;
    let total: i128 = v + a + d;
    let spread: i128 = 3 * squares - total * total;
    let variance_term: i128 = 4 * spread / (9 * (ONE as i128));
    if variance_term >= ONE as i128 {
        0
    } else {
        ONE - (variance_term as i32)
    }
}

/// The pattern of an averaged emotional state.
pub fn classify_pattern(valence: i32, arousal: i32, dominance: i32) -> (pattern: PatternType)
    ensures
        pattern == pattern_of(valence as int, arousal as int, dominance as int),
        pattern != PatternType::NeutralStable,
        pattern != PatternType::LowEnergy,
{
    let high_valence = valence > HALF;
    let high_arousal = arousal > HALF;
    let high_dominance = dominance > HALF;
    if high_valence && high_arousal && high_dominance {
        PatternType::StablePositive
    } else if !high_valence && high_arousal && high_dominance {
        PatternType::StableNegative
    } else if !high_valence && high_arousal && !high_dominance {
        PatternType::HighEnergy
    } else {
        PatternType::UnstableMixed
    }
}

/// Creates the registry of an authority, with no records yet, and the
/// announcement of it.
pub fn initialize_registry(registry_key: [u8; 32], authority: [u8; 32], now: i64) -> (result: (
    EmotionalRegistry,
    RegistryInitialized,
))
    ensures
        result.0 == (EmotionalRegistry { authority, total_records: 0, last_update: now }),
        result.1 == (RegistryInitialized { registry: registry_key, authority, timestamp: now }),
{
    let registry = EmotionalRegistry { authority, total_records: 0, last_update: now };
    let event = RegistryInitialized { registry: registry_key, authority, timestamp: now };
    (registry, event)
}

/// Stores the emotional metadata of an asset and counts it in the registry.
/// The record's generation is its number in the registry, counted from 1. A
/// vector or a confidence outside 0.0 to 1.0 is rejected and the registry
/// left as it was.
pub fn store_emotional_metadata(
    registry: &mut EmotionalRegistry,
    metadata_key: [u8; 32],
    nft_mint: [u8; 32],
    owner: [u8; 32],
    emotion_vector: EmotionVector,
    biometric_signature: [u8; 64],
    ai_confidence: i32,
    now: i64,
) -> (result: Result<(EmotionalMetadata, EmotionalMetadataStored), ErrorCode>)
    requires
        old(registry).total_records < u64::MAX,
    ensures
        match result {
            Ok((metadata, event)) => {
                &&& emotion_vector.in_range() && in_unit(ai_confidence as int)
                &&& metadata == (EmotionalMetadata {
                    nft_mint,
                    owner,
                    emotion_vector,
                    biometric_signature,
                    ai_confidence,
                    timestamp: now,
                    generation: (old(registry).total_records + 1) as u64,
                })
                &&& metadata.wf()
                &&& event == (EmotionalMetadataStored {
                    metadata: metadata_key,
                    nft_mint,
                    owner,
                    emotion_vector,
                    ai_confidence,
                    timestamp: now,
                })
                &&& *final(registry) == (EmotionalRegistry {
                    total_records: (old(registry).total_records + 1) as u64,
                    last_update: now,
                    ..*old(registry)
                })
            },
            Err(e) => {
                &&& e == ErrorCode::InvalidEmotionVector
                &&& !(emotion_vector.in_range() && in_unit(ai_confidence as int))
                &&& *final(registry) == *old(registry)
            },
        },
{
    if !emotion_vector.is_in_range() || ai_confidence < 0 || ai_confidence > ONE {
        return Err(ErrorCode::InvalidEmotionVector);
    }
    let metadata = EmotionalMetadata {
        nft_mint,
        owner,
        emotion_vector,
        biometric_signature,
        ai_confidence,
        timestamp: now,
        generation: registry.total_records + 1,
    };
    registry.total_records = registry.total_records + 1;
    registry.last_update = now;
    let event = EmotionalMetadataStored {
        metadata: metadata_key,
        nft_mint,
        owner,
        emotion_vector,
        ai_confidence,
        timestamp: now,
    };
    Ok((metadata, event))
}

/// Replaces the emotional state of a record. `caller_is_owner` is the
/// storage layer's finding on whether the caller owns the record; this
/// function does not derive it again. Without it the update is rejected as
/// unauthorized; a vector or a confidence outside 0.0 to 1.0 is rejected as
/// invalid. A rejected update leaves the record as it was.
pub fn update_emotional_state(
    metadata: &mut EmotionalMetadata,
    metadata_key: [u8; 32],
    caller_is_owner: bool,
    new_emotion_vector: EmotionVector,
    new_biometric_signature: [u8; 64],
    new_ai_confidence: i32,
    now: i64,
) -> (result: Result<EmotionalStateUpdated, ErrorCode>)
    ensures
        match result {
            Ok(event) => {
                &&& caller_is_owner
                &&& new_emotion_vector.in_range() && in_unit(new_ai_confidence as int)
                &&& *final(metadata) == (EmotionalMetadata {
                    emotion_vector: new_emotion_vector,
                    biometric_signature: new_biometric_signature,
                    ai_confidence: new_ai_confidence,
                    timestamp: now,
                    ..*old(metadata)
                })
                &&& final(metadata).wf()
                &&& event == (EmotionalStateUpdated {
                    metadata: metadata_key,
                    nft_mint: old(metadata).nft_mint,
                    owner: old(metadata).owner,
                    new_emotion_vector,
                    new_ai_confidence,
                    updated_at: now,
                })
            },
            Err(e) => {
                &&& *final(metadata) == *old(metadata)
                &&& e == ErrorCode::Unauthorized <==> !caller_is_owner
                &&& e == ErrorCode::InvalidEmotionVector <==> caller_is_owner
                    && !(new_emotion_vector.in_range() && in_unit(new_ai_confidence as int))
                &&& e == ErrorCode::Unauthorized || e == ErrorCode::InvalidEmotionVector
            },
        },
{
    if !caller_is_owner {
        return Err(ErrorCode::Unauthorized);
    }
    if !new_emotion_vector.is_in_range() || new_ai_confidence < 0 || new_ai_confidence > ONE {
        return Err(ErrorCode::InvalidEmotionVector);
    }
    metadata.emotion_vector = new_emotion_vector;
    metadata.biometric_signature = new_biometric_signature;
    metadata.ai_confidence = new_ai_confidence;
    metadata.timestamp = now;
    let event = EmotionalStateUpdated {
        metadata: metadata_key,
        nft_mint: metadata.nft_mint,
        owner: metadata.owner,
        new_emotion_vector: metadata.emotion_vector,
        new_ai_confidence: metadata.ai_confidence,
        updated_at: metadata.timestamp,
    };
    Ok(event)
}

/// The emotional state of a record.
pub fn query_emotional_state(metadata: &EmotionalMetadata) -> (emotion_vector: EmotionVector)
    ensures
        emotion_vector == metadata.emotion_vector,
{
    metadata.emotion_vector
}

/// Analyses the emotional pattern across a set of assets. Every asset
/// contributes the same fixed sample, so for any non-empty set the averages
/// are that sample, and stability and pattern are those of the sample. An
/// empty set has no average and is rejected.
pub fn analyze_emotional_patterns(nft_mints: &Vec<[u8; 32]>) -> (result: Result<
    EmotionalAnalysis,
    ErrorCode,
>)
    ensures
        match result {
            Ok(analysis) => nft_mints.len() > 0 && analysis == sample_analysis(),
            Err(e) => nft_mints.len() == 0 && e == ErrorCode::InvalidEmotionVector,
        },
{
    let n = nft_mints.len();
    if n == 0 {
        return Err(ErrorCode::InvalidEmotionVector);
    }
    let mut total_valence: u128 = 0;
    let mut total_arousal: u128 = 0;
    let mut total_dominance: u128 = 0;
    let mut confidence_sum: u128 = 0;
    let mut i: usize = 0;
    while i < n
        invariant
            0 <= i <= n,
            total_valence == i * SAMPLE_VALENCE,
            total_arousal == i * SAMPLE_AROUSAL,
            total_dominance == i * SAMPLE_DOMINANCE,
            confidence_sum == i * SAMPLE_CONFIDENCE,
        decreases n - i,
    {
        total_valence = total_valence + SAMPLE_VALENCE as u128;
        total_arousal = total_arousal + SAMPLE_AROUSAL as u128;
        total_dominance = total_dominance + SAMPLE_DOMINANCE as u128;
        confidence_sum = confidence_sum + SAMPLE_CONFIDENCE as u128;
        i = i + 1;
    }
    let count: u128 = n as u128;
    proof {
        vstd::arithmetic::div_mod::lemma_div_multiples_vanish(SAMPLE_VALENCE as int, count as int);
        vstd::arithmetic::div_mod::lemma_div_multiples_vanish(SAMPLE_AROUSAL as int, count as int);
        vstd::arithmetic::div_mod::lemma_div_multiples_vanish(
            SAMPLE_DOMINANCE as int,
            count as int,
        );
        vstd::arithmetic::div_mod::lemma_div_multiples_vanish(
            SAMPLE_CONFIDENCE as int,
            count as int,
        );
    }
    let average_valence: i32 = (total_valence / count) as i32;
    let average_arousal: i32 = (total_arousal / count) as i32;
    let average_dominance: i32 = (total_dominance / count) as i32;
    let overall_confidence: i32 = (confidence_sum / count) as i32;
    Ok(
        EmotionalAnalysis {
            average_valence,
            average_arousal,
            average_dominance,
            overall_confidence,
            emotional_stability: calculate_stability(
                average_valence,
                average_arousal,
                average_dominance,
            ),
            pattern_type: classify_pattern(average_valence, average_arousal, average_dominance),
        },
    )
}

} // verus!
