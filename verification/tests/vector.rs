use emotional_core::fixed::ONE;
use emotional_core::vector::encode_emotional_state;
use emotional_core::vector::hash_emotional_state;
use emotional_core::vector::EmotionalVector;
use emotional_core::vector::ENCODED_LEN;

fn sample() -> EmotionalVector {
    EmotionalVector {
        valence: 400_000,
        arousal: 600_000,
        dominance: 200_000,
        confidence: 900_000,
        timestamp: 1060,
    }
}

fn plain_encoding(v: &EmotionalVector) -> Vec<u8> {
    let mut bytes = Vec::new();
    bytes.extend_from_slice(&v.valence.to_le_bytes());
    bytes.extend_from_slice(&v.arousal.to_le_bytes());
    bytes.extend_from_slice(&v.dominance.to_le_bytes());
    bytes.extend_from_slice(&v.confidence.to_le_bytes());
    bytes.extend_from_slice(&v.timestamp.to_le_bytes());
    bytes
}

#[test]
fn default_vector_is_zero() {
    let v = EmotionalVector::default();
    assert_eq!(
        v,
        EmotionalVector { valence: 0, arousal: 0, dominance: 0, confidence: 0, timestamp: 0 }
    );
}

#[test]
fn range_of_a_vector() {
    assert!(sample().is_in_range());
    assert!(EmotionalVector::default().is_in_range());
    let edge = EmotionalVector {
        valence: -ONE,
        arousal: ONE,
        dominance: 0,
        confidence: ONE,
        timestamp: i64::MIN,
    };
    assert!(edge.is_in_range());
    assert!(!EmotionalVector { valence: -ONE - 1, ..edge }.is_in_range());
    assert!(!EmotionalVector { valence: ONE + 1, ..edge }.is_in_range());
    assert!(!EmotionalVector { arousal: -1, ..edge }.is_in_range());
    assert!(!EmotionalVector { arousal: ONE + 1, ..edge }.is_in_range());
    assert!(!EmotionalVector { dominance: -1, ..edge }.is_in_range());
    assert!(!EmotionalVector { dominance: ONE + 1, ..edge }.is_in_range());
    assert!(!EmotionalVector { confidence: -1, ..edge }.is_in_range());
    assert!(!EmotionalVector { confidence: ONE + 1, ..edge }.is_in_range());
}

#[test]
fn encoding_is_little_endian_in_field_order() {
    let bytes = encode_emotional_state(&sample());
    assert_eq!(bytes.len(), ENCODED_LEN);
    assert_eq!(
        bytes,
        vec![
            0x80, 0x1a, 0x06, 0x00, 0xc0, 0x27, 0x09, 0x00, 0x40, 0x0d, 0x03, 0x00, 0xa0, 0xbb,
            0x0d, 0x00, 0x24, 0x04, 0x00, 0x00, 0x00, 0x00, 0x00, 0x00,
        ]
    );
}

#[test]
fn encoding_of_negative_numbers_is_twos_complement() {
    let v = EmotionalVector {
        valence: -ONE,
        arousal: 0,
        dominance: 0,
        confidence: 0,
        timestamp: -1,
    };
    assert_eq!(
        encode_emotional_state(&v),
        vec![
            0xc0, 0xbd, 0xf0, 0xff, 0, 0, 0, 0, 0, 0, 0, 0, 0, 0, 0, 0, 0xff, 0xff, 0xff, 0xff,
            0xff, 0xff, 0xff, 0xff,
        ]
    );
}

#[test]
fn encoding_agrees_with_the_standard_library() {
    let corners = [i32::MIN, -ONE, -1, 0, 1, 255, 256, 65_536, ONE, i32::MAX];
    let stamps = [i64::MIN, -4_294_967_297, -1, 0, 1, 4_294_967_296, i64::MAX];
    for (i, a) in corners.iter().enumerate() {
        for t in stamps.iter() {
            let v = EmotionalVector {
                valence: *a,
                arousal: corners[(i + 1) % corners.len()],
                dominance: corners[(i + 2) % corners.len()],
                confidence: corners[(i + 3) % corners.len()],
                timestamp: *t,
            };
            assert_eq!(encode_emotional_state(&v), plain_encoding(&v));
        }
    }
}

#[test]
fn hash_is_the_sha256_of_the_encoding() {
    let first = EmotionalVector {
        valence: 0,
        arousal: 0,
        dominance: 0,
        confidence: ONE,
        timestamp: 1000,
    };
    assert_eq!(
        hash_emotional_state(&first),
        [
            33, 41, 53, 160, 18, 34, 122, 19, 75, 122, 125, 245, 158, 167, 55, 103, 130, 239, 220,
            81, 169, 69, 91, 114, 111, 162, 172, 24, 249, 173, 58, 115,
        ]
    );
    assert_eq!(
        hash_emotional_state(&sample()),
        [
            192, 172, 235, 153, 199, 121, 225, 16, 71, 188, 134, 74, 254, 131, 139, 151, 48, 17,
            70, 56, 222, 65, 124, 227, 10, 253, 79, 10, 100, 211, 62, 202,
        ]
    );
}

#[test]
fn hash_agrees_with_hashing_the_plain_encoding() {
    let v = EmotionalVector {
        valence: -ONE,
        arousal: 0,
        dominance: 0,
        confidence: 0,
        timestamp: -1,
    };
    let expected = solana_program::hash::hash(&plain_encoding(&v)).to_bytes();
    assert_eq!(hash_emotional_state(&v), expected);
}

#[test]
fn hash_is_deterministic() {
    let a = sample();
    let b = sample();
    assert_eq!(hash_emotional_state(&a), hash_emotional_state(&b));
    assert_eq!(hash_emotional_state(&a), hash_emotional_state(&a));
}

#[test]
fn hash_changes_with_every_field() {
    let base = sample();
    let base_hash = hash_emotional_state(&base);
    let changed = [
        EmotionalVector { valence: base.valence + 1, ..base },
        EmotionalVector { arousal: base.arousal + 1, ..base },
        EmotionalVector { dominance: base.dominance + 1, ..base },
        EmotionalVector { confidence: base.confidence + 1, ..base },
        EmotionalVector { timestamp: base.timestamp + 1, ..base },
    ];
    for (i, v) in changed.iter().enumerate() {
        assert_ne!(hash_emotional_state(v), base_hash);
        assert_ne!(encode_emotional_state(v), encode_emotional_state(&base));
        for w in changed.iter().skip(i + 1) {
            assert_ne!(hash_emotional_state(v), hash_emotional_state(w));
        }
    }
}
