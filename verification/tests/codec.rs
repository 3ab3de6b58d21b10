use tlv_codec::decode::decode;
use tlv_codec::encode::{encode, encode_f32, encode_u16};
use tlv_codec::project::project;
use tlv_codec::tags::{DecodeError, Tag, kind_of, tag_of};
use tlv_codec::value::{Dict, PositionalRecord, Value};

fn sample_record() -> PositionalRecord {
    PositionalRecord {
        x: 1.0f32.to_bits(),
        y: 3.0f32.to_bits(),
        z: 5.0f32.to_bits(),
        rx: 0.0f32.to_bits(),
        ry: 0.0f32.to_bits(),
        rz: 0.0f32.to_bits(),
        rot: 5,
    }
}

#[test]
fn registry_codes() {
    assert_eq!(tag_of(Tag::U16Scalar), 1);
    assert_eq!(tag_of(Tag::FloatScalar), 8);
    assert_eq!(tag_of(Tag::PositionalRecord), 100);
    assert_eq!(kind_of(1), Ok(Tag::U16Scalar));
    assert_eq!(kind_of(8), Ok(Tag::FloatScalar));
    assert_eq!(kind_of(100), Ok(Tag::PositionalRecord));
    assert_eq!(kind_of(7), Err(DecodeError::UnknownTag(7)));
    assert_eq!(kind_of(0), Err(DecodeError::UnknownTag(0)));
}

#[test]
fn u16_frame_layout() {
    assert_eq!(encode_u16(5, 7), vec![7, 0, 1, 0, 2, 0, 5, 0]);
    assert_eq!(
        encode_u16(0x1234, 0x0201),
        vec![0x01, 0x02, 1, 0, 2, 0, 0x34, 0x12]
    );
}

#[test]
fn f32_frame_layout() {
    // 1.0f32 is 0x3f800000.
    assert_eq!(
        encode_f32(1.0f32.to_bits(), 1),
        vec![1, 0, 8, 0, 4, 0, 0x00, 0x00, 0x80, 0x3f]
    );
}

#[test]
fn message_layout() {
    let message = encode(sample_record(), 1);
    assert_eq!(message.len(), 74);
    assert_eq!(&message[0..6], &[1, 0, 100, 0, 68, 0]);
    // First field frame: key 1, float tag, 4-byte payload holding 1.0.
    assert_eq!(&message[6..16], &[1, 0, 8, 0, 4, 0, 0x00, 0x00, 0x80, 0x3f]);
    // Last field frame: key 7, u16 tag, 2-byte payload holding 5.
    assert_eq!(&message[66..74], &[7, 0, 1, 0, 2, 0, 5, 0]);
}

#[test]
fn round_trip() {
    let r = sample_record();
    let message = encode(r, 1);
    let decoded = decode(&message).expect("a well-formed message decodes");
    match decoded {
        Value::Dict(dict) => match dict.get(1) {
            Some(Some(Value::PositionalRecord(back))) => {
                assert_eq!(*back, r);
                assert_eq!(f32::from_bits(back.y), 3.0f32);
            }
            other => panic!("expected the record under key 1, got {:?}", other.is_some()),
        },
        _ => panic!("decode must yield a dictionary"),
    }
}

#[test]
fn round_trip_payload_projects_cleanly() {
    let r = sample_record();
    let message = encode(r, 1);
    // The outer frame's payload: the seven scalar frames.
    let payload: Vec<u8> = message[6..].to_vec();
    let decoded = decode(&payload).expect("the payload decodes");
    match decoded {
        Value::Dict(dict) => {
            let (record, diagnostics) = project(&dict);
            assert_eq!(record, r);
            assert!(diagnostics.is_empty());
        }
        _ => panic!("decode must yield a dictionary"),
    }
}

#[test]
fn idempotent_decode() {
    let message = encode(sample_record(), 1);
    let first = decode(&message).expect("decodes once");
    let second = decode(&message).expect("decodes twice");
    match (first, second) {
        (Value::Dict(d1), Value::Dict(d2)) => match (d1.get(1), d2.get(1)) {
            (Some(Some(Value::PositionalRecord(r1))), Some(Some(Value::PositionalRecord(r2)))) => {
                assert_eq!(r1, r2);
            }
            _ => panic!("both decodes must hold the record under key 1"),
        },
        _ => panic!("both decodes must yield dictionaries"),
    }
}

#[test]
fn unknown_tag_rejected() {
    // Key 1, tag 7 (outside the registry), empty payload.
    let buffer = vec![1, 0, 7, 0, 0, 0];
    assert!(matches!(decode(&buffer), Err(DecodeError::UnknownTag(7))));
}

#[test]
fn unknown_tag_aborts_whole_buffer() {
    // A valid scalar frame followed by an unregistered tag: no partial
    // dictionary comes back.
    let mut buffer = encode_u16(5, 1);
    buffer.extend_from_slice(&[2, 0, 9, 0, 0, 0]);
    assert!(matches!(decode(&buffer), Err(DecodeError::UnknownTag(9))));
}

#[test]
fn truncated_header_detected() {
    let buffer = vec![1, 0];
    assert!(matches!(decode(&buffer), Err(DecodeError::TruncatedFrame)));
}

#[test]
fn truncated_payload_detected() {
    // Declared length 10, but only 2 payload bytes remain.
    let buffer = vec![1, 0, 1, 0, 10, 0, 0xAA, 0xBB];
    assert!(matches!(decode(&buffer), Err(DecodeError::TruncatedFrame)));
}

#[test]
fn scalar_narrower_than_its_width_detected() {
    // A u16 scalar whose declared payload is a single byte.
    let buffer = vec![1, 0, 1, 0, 1, 0, 0xAA];
    assert!(matches!(decode(&buffer), Err(DecodeError::TruncatedFrame)));
}

#[test]
fn missing_field_defaulted() {
    let r = sample_record();
    // The seven-field payload without the frame for key 3 (z).
    let mut payload = Vec::new();
    payload.extend_from_slice(&encode_f32(r.x, 1));
    payload.extend_from_slice(&encode_f32(r.y, 2));
    payload.extend_from_slice(&encode_f32(r.rx, 4));
    payload.extend_from_slice(&encode_f32(r.ry, 5));
    payload.extend_from_slice(&encode_f32(r.rz, 6));
    payload.extend_from_slice(&encode_u16(r.rot, 7));
    let decoded = decode(&payload).expect("the partial payload decodes");
    match decoded {
        Value::Dict(dict) => {
            let (record, diagnostics) = project(&dict);
            assert_eq!(f32::from_bits(record.z), 0.0f32);
            assert_eq!(diagnostics, vec![3]);
            assert_eq!(record.x, r.x);
            assert_eq!(record.y, r.y);
            assert_eq!(record.rx, r.rx);
            assert_eq!(record.ry, r.ry);
            assert_eq!(record.rz, r.rz);
            assert_eq!(record.rot, r.rot);
        }
        _ => panic!("decode must yield a dictionary"),
    }
}

#[test]
fn mismatched_kind_defaulted() {
    // Key 1 (x, a float field) carries a u16 scalar instead.
    let payload = encode_u16(42, 1);
    let decoded = decode(&payload).expect("the payload decodes");
    match decoded {
        Value::Dict(dict) => {
            let (record, diagnostics) = project(&dict);
            assert_eq!(record.x, 0);
            assert!(diagnostics.contains(&1));
        }
        _ => panic!("decode must yield a dictionary"),
    }
}

#[test]
fn duplicate_key_last_wins() {
    let mut buffer = encode_u16(1, 2);
    buffer.extend_from_slice(&encode_u16(9, 2));
    let decoded = decode(&buffer).expect("the buffer decodes");
    match decoded {
        Value::Dict(dict) => {
            assert!(matches!(dict.get(2), Some(Some(Value::U16Scalar(9)))));
        }
        _ => panic!("decode must yield a dictionary"),
    }
}

#[test]
fn empty_buffer_decodes_to_empty_dict() {
    let buffer: Vec<u8> = Vec::new();
    match decode(&buffer).expect("an empty buffer decodes") {
        Value::Dict(dict) => {
            assert!(dict.get(1).is_none());
        }
        _ => panic!("decode must yield a dictionary"),
    }
}

#[test]
fn dict_insert_and_get() {
    let mut dict = Dict::new();
    assert!(dict.get(4).is_none());
    dict.insert(4, Some(Value::U16Scalar(11)));
    assert!(matches!(dict.get(4), Some(Some(Value::U16Scalar(11)))));
    dict.insert(4, None);
    assert!(matches!(dict.get(4), Some(None)));
    assert!(dict.get(5).is_none());
}

#[test]
fn projecting_empty_dict_defaults_everything() {
    let dict = Dict::new();
    let (record, diagnostics) = project(&dict);
    assert_eq!(
        record,
        PositionalRecord { x: 0, y: 0, z: 0, rx: 0, ry: 0, rz: 0, rot: 0 }
    );
    assert_eq!(diagnostics, vec![1, 2, 3, 4, 5, 6, 7]);
}
