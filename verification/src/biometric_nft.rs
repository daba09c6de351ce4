//! Biometric assets: collections, the assets minted in them with their
//! emotional data, and the rule that an asset changes hands only while its
//! emotional state is stable.

use vstd::prelude::*;
use crate::fixed::in_unit;
use crate::fixed::ONE;

verus! {

/// Why a transition was rejected.
#[derive(Clone, Copy, Debug, PartialEq, Eq, Structural)]
pub enum ErrorCode {
    /// The caller does not own the asset.
    Unauthorized,
    /// The emotional state is too unstable for a transfer.
    EmotionalStateUnstable,
    /// A coordinate of the emotional data lies outside 0.0 to 1.0.
    InvalidBiometricData,
    /// The collection cannot count another asset.
    CollectionFull,
}

impl ErrorCode {
    /// The message that goes with the error.
    pub open spec fn message_of(self) -> Seq<char> {
        match self {
            ErrorCode::Unauthorized => "Unauthorized access"@,
            ErrorCode::EmotionalStateUnstable => "Emotional state too unstable for transfer"@,
            ErrorCode::InvalidBiometricData => "Invalid biometric data"@,
            ErrorCode::CollectionFull => "Collection is full"@,
        }
    }

    /// The message that goes with the error.
    pub fn message(&self) -> (text: &'static str)
        ensures
            text@ == self.message_of(),
    {
        match self {
            ErrorCode::Unauthorized => "Unauthorized access",
            ErrorCode::EmotionalStateUnstable => "Emotional state too unstable for transfer",
            ErrorCode::InvalidBiometricData => "Invalid biometric data",
            ErrorCode::CollectionFull => "Collection is full",
        }
    }
}

/// The arousal from which an emotional state is too unstable for a
/// transfer, 0.7.
pub const UNSTABLE_AROUSAL: i32 = 700_000;

/// The emotional data of an asset. The four coordinates are in millionths
/// and lie between 0.0 and 1.0.
#[derive(Clone, Copy, Debug, PartialEq, Eq, Structural)]
pub struct EmotionData {
    /// Pleasure.
    pub valence: i32,
    /// Energy level.
    pub arousal: i32,
    /// Control level.
    pub dominance: i32,
    /// Confidence in the detection.
    pub confidence: i32,
    /// When the emotion was detected.
    pub timestamp: i64,
}

/// A collection of biometric assets.
#[derive(Clone, Debug, PartialEq, Eq)]
pub struct BiometricCollection {
    pub authority: [u8; 32],
    pub name: String,
    pub symbol: String,
    pub uri: String,
    /// The number of assets minted in the collection.
    pub total_supply: u64,
}

/// The mathematical value of a [`BiometricCollection`].
pub struct BiometricCollectionView {
    pub authority: [u8; 32],
    pub name: Seq<char>,
    pub symbol: Seq<char>,
    pub uri: Seq<char>,
    pub total_supply: int,
}

impl View for BiometricCollection {
    type V = BiometricCollectionView;

    open spec fn view(&self) -> BiometricCollectionView {
        BiometricCollectionView {
            authority: self.authority,
            name: self.name@,
            symbol: self.symbol@,
            uri: self.uri@,
            total_supply: self.total_supply as int,
        }
    }
}

/// A biometric asset.
#[derive(Clone, Debug, PartialEq, Eq)]
pub struct BiometricNFT {
    /// The collection the asset was minted in.
    pub collection: [u8; 32],
    pub owner: [u8; 32],
    pub biometric_hash: [u8; 32],
    pub emotion_data: EmotionData,
    pub uri: String,
    pub minted_at: i64,
    pub last_updated: i64,
    /// The asset's number in its collection, counted from 1.
    pub generation: u64,
}

/// The mathematical value of a [`BiometricNFT`].
pub struct BiometricNFTView {
    pub collection: [u8; 32],
    pub owner: [u8; 32],
    pub biometric_hash: [u8; 32],
    pub emotion_data: EmotionData,
    pub uri: Seq<char>,
    pub minted_at: i64,
    pub last_updated: i64,
    pub generation: int,
}

impl View for BiometricNFT {
    type V = BiometricNFTView;

    open spec fn view(&self) -> BiometricNFTView {
        BiometricNFTView {
            collection: self.collection,
            owner: self.owner,
            biometric_hash: self.biometric_hash,
            emotion_data: self.emotion_data,
            uri: self.uri@,
            minted_at: self.minted_at,
            last_updated: self.last_updated,
            generation: self.generation as int,
        }
    }
}

/// Announces a new collection.
#[derive(Clone, Debug, PartialEq, Eq)]
pub struct CollectionInitialized {
    pub collection: [u8; 32],
    pub authority: [u8; 32],
    pub name: String,
    pub symbol: String,
}

/// The mathematical value of a [`CollectionInitialized`].
pub struct CollectionInitializedView {
    pub collection: [u8; 32],
    pub authority: [u8; 32],
    pub name: Seq<char>,
    pub symbol: Seq<char>,
}

impl View for CollectionInitialized {
    type V = CollectionInitializedView;

    open spec fn view(&self) -> CollectionInitializedView {
        CollectionInitializedView {
            collection: self.collection,
            authority: self.authority,
            name: self.name@,
            symbol: self.symbol@,
        }
    }
}

/// Announces a minted asset.
#[derive(Clone, Copy, Debug, PartialEq, Eq)]
pub struct BiometricNFTMinted {
    pub nft: [u8; 32],
    pub collection: [u8; 32],
    pub owner: [u8; 32],
    pub biometric_hash: [u8; 32],
    pub emotion_data: EmotionData,
    pub generation: u64,
}

/// Announces a changed emotional state.
#[derive(Clone, Copy, Debug, PartialEq, Eq)]
pub struct EmotionStateUpdated {
    pub nft: [u8; 32],
    pub owner: [u8; 32],
    pub new_emotion_data: EmotionData,
    pub updated_at: i64,
}

/// Announces a transfer.
#[derive(Clone, Copy, Debug, PartialEq, Eq)]
pub struct NFTTransferred {
    pub nft: [u8; 32],
    pub from: [u8; 32],
    pub to: [u8; 32],
    pub emotion_data: EmotionData,
}

impl EmotionData {
    /// Every coordinate lies between 0.0 and 1.0.
    pub open spec fn in_range(&self) -> bool {
        &&& in_unit(self.valence as int)
        &&& in_unit(self.arousal as int)
        &&& in_unit(self.dominance as int)
        &&& in_unit(self.confidence as int)
    }

    /// The state is calm enough for a transfer: arousal below 0.7.
    pub open spec fn stable(&self) -> bool {
        self.arousal < UNSTABLE_AROUSAL
    }

    /// Tells whether every coordinate lies between 0.0 and 1.0.
    pub fn is_in_range(&self) -> (ok: bool)
        ensures
            ok == self.in_range(),
    {
        0 <= self.valence && self.valence <= ONE && 0 <= self.arousal && self.arousal <= ONE && 0
            <= self.dominance && self.dominance <= ONE && 0 <= self.confidence && self.confidence
            <= ONE
    }

    /// Tells whether the state is calm enough for a transfer.
    pub fn is_stable(&self) -> (ok: bool)
        ensures
            ok == self.stable(),
    {
        self.arousal < UNSTABLE_AROUSAL
    }
}

impl BiometricNFT {
    /// The emotional data lies in its domain.
    pub open spec fn wf(&self) -> bool {
        self.emotion_data.in_range()
    }

    /// Tells whether the asset is well formed.
    pub fn is_wf(&self) -> (ok: bool)
        ensures
            ok == self.wf(),
    {
        self.emotion_data.is_in_range()
    }
}

/// Creates an empty collection and the announcement of it.
pub fn initialize_collection(
    collection_key: [u8; 32],
    authority: [u8; 32],
    name: String,
    symbol: String,
    uri: String,
) -> (result: (BiometricCollection, CollectionInitialized))
    ensures
        result.0@ == (BiometricCollectionView {
            authority,
            name: name@,
            symbol: symbol@,
            uri: uri@,
            total_supply: 0,
        }),
        result.1@ == (CollectionInitializedView {
            collection: collection_key,
            authority,
            name: name@,
            symbol: symbol@,
        }),
{
    let event = CollectionInitialized {
        collection: collection_key,
        authority,
        name: name.clone(),
        symbol: symbol.clone(),
    };
    let collection = BiometricCollection { authority, name, symbol, uri, total_supply: 0 };
    (collection, event)
}

/// Mints an asset in a collection. The asset's generation is its number in
/// the collection, counted from 1, and the collection's supply grows by one.
/// Emotional data out of range is rejected as invalid; a collection whose
/// supply cannot grow is full. A rejected mint leaves the collection as it
/// was.
pub fn mint_biometric_nft(
    collection: &mut BiometricCollection,
    collection_key: [u8; 32],
    nft_key: [u8; 32],
    owner: [u8; 32],
    biometric_hash: [u8; 32],
    emotion_data: EmotionData,
    uri: String,
    now: i64,
) -> (result: Result<(BiometricNFT, BiometricNFTMinted), ErrorCode>)
    ensures
        match result {
            Ok((nft, event)) => {
                &&& emotion_data.in_range()
                &&& old(collection).total_supply < u64::MAX
                &&& nft@ == (BiometricNFTView {
                    collection: collection_key,
                    owner,
                    biometric_hash,
                    emotion_data,
                    uri: uri@,
                    minted_at: now,
                    last_updated: 0,
                    generation: old(collection).total_supply + 1,
                })
                &&& nft.wf()
                &&& event == (BiometricNFTMinted {
                    nft: nft_key,
                    collection: collection_key,
                    owner,
                    biometric_hash,
                    emotion_data,
                    generation: nft.generation,
                })
                &&& final(collection)@ == (BiometricCollectionView {
                    total_supply: old(collection).total_supply + 1,
                    ..old(collection)@
                })
            },
            Err(e) => {
                &&& *final(collection) == *old(collection)
                &&& e == ErrorCode::InvalidBiometricData <==> !emotion_data.in_range()
                &&& e == ErrorCode::CollectionFull <==> emotion_data.in_range()
                    && old(collection).total_supply == u64::MAX
                &&& e == ErrorCode::InvalidBiometricData || e == ErrorCode::CollectionFull
            },
        },
{
    if !emotion_data.is_in_range() {
        return Err(ErrorCode::InvalidBiometricData);
    }
    if collection.total_supply == u64::MAX {
        return Err(ErrorCode::CollectionFull);
    }
    let generation: u64 = collection.total_supply + 1;
    let nft = BiometricNFT {
        collection: collection_key,
        owner,
        biometric_hash,
        emotion_data,
        uri,
        minted_at: now,
        last_updated: 0,
        generation,
    };
    collection.total_supply = generation;
    let event = BiometricNFTMinted {
        nft: nft_key,
        collection: collection_key,
        owner,
        biometric_hash,
        emotion_data,
        generation,
    };
    Ok((nft, event))
}

/// Replaces the emotional data of an asset. `caller_is_owner` is the storage
/// layer's finding on whether the caller owns the asset; this function does
/// not derive it again. Without it the update is rejected as unauthorized;
/// data out of range is rejected as invalid. A rejected update leaves the
/// asset as it was.
pub fn update_emotion_state(
    nft: &mut BiometricNFT,
    nft_key: [u8; 32],
    caller_is_owner: bool,
    new_emotion_data: EmotionData,
    now: i64,
) -> (result: Result<EmotionStateUpdated, ErrorCode>)
    ensures
        match result {
            Ok(event) => {
                &&& caller_is_owner
                &&& new_emotion_data.in_range()
                &&& final(nft)@ == (BiometricNFTView {
                    emotion_data: new_emotion_data,
                    last_updated: now,
                    ..old(nft)@
                })
                &&& final(nft).wf()
                &&& event == (EmotionStateUpdated {
                    nft: nft_key,
                    owner: old(nft).owner,
                    new_emotion_data,
                    updated_at: now,
                })
            },
            Err(e) => {
                &&& *final(nft) == *old(nft)
                &&& e == ErrorCode::Unauthorized <==> !caller_is_owner
                &&& e == ErrorCode::InvalidBiometricData <==> caller_is_owner
                    && !new_emotion_data.in_range()
                &&& e == ErrorCode::Unauthorized || e == ErrorCode::InvalidBiometricData
            },
        },
{
    if !caller_is_owner {
        return Err(ErrorCode::Unauthorized);
    }
    if !new_emotion_data.is_in_range() {
        return Err(ErrorCode::InvalidBiometricData);
    }
    nft.emotion_data = new_emotion_data;
    nft.last_updated = now;
    let event = EmotionStateUpdated {
        nft: nft_key,
        owner: nft.owner,
        new_emotion_data: nft.emotion_data,
        updated_at: nft.last_updated,
    };
    Ok(event)
}

/// Transfers an asset to a new owner. `caller_is_owner` is the storage
/// layer's finding on whether the caller owns the asset; this function does
/// not derive it again. Without it the transfer is rejected as unauthorized.
/// The emotional state must be stable, with arousal below 0.7; otherwise the
/// transfer is rejected as unstable. A rejected transfer leaves the asset as
/// it was.
pub fn transfer_nft(
    nft: &mut BiometricNFT,
    nft_key: [u8; 32],
    caller_is_owner: bool,
    new_owner: [u8; 32],
    now: i64,
) -> (result: Result<NFTTransferred, ErrorCode>)
    ensures
        match result {
            Ok(event) => {
                &&& caller_is_owner
                &&& old(nft).emotion_data.stable()
                &&& final(nft)@ == (BiometricNFTView {
                    owner: new_owner,
                    last_updated: now,
                    ..old(nft)@
                })
                &&& event == (NFTTransferred {
                    nft: nft_key,
                    from: old(nft).owner,
                    to: new_owner,
                    emotion_data: old(nft).emotion_data,
                })
            },
            Err(e) => {
                &&& *final(nft) == *old(nft)
                &&& e == ErrorCode::Unauthorized <==> !caller_is_owner
                &&& e == ErrorCode::EmotionalStateUnstable <==> caller_is_owner
                    && !old(nft).emotion_data.stable()
                &&& e == ErrorCode::Unauthorized || e == ErrorCode::EmotionalStateUnstable
            },
        },
        old(nft).wf() ==> final(nft).wf(),
{
    if !caller_is_owner {
        return Err(ErrorCode::Unauthorized);
    }
    if !nft.emotion_data.is_stable() {
        return Err(ErrorCode::EmotionalStateUnstable);
    }
    let from = nft.owner;
    nft.owner = new_owner;
    nft.last_updated = now;
    let event = NFTTransferred {
        nft: nft_key,
        from,
        to: new_owner,
        emotion_data: nft.emotion_data,
    };
    Ok(event)
}

} // verus!
