//! Tests of the wire envelope and the MessagePack payload codec.

use embedding_server::protocol::deserialize_request;
use embedding_server::protocol::deserialize_response;
use embedding_server::protocol::serialize_error;
use embedding_server::protocol::serialize_request;
use embedding_server::protocol::serialize_response;
use embedding_server::protocol::DecodeError;
use embedding_server::protocol::EmbedRequest;
use embedding_server::protocol::EmbedResponse;
use embedding_server::protocol::ErrorResponse;
use embedding_server::protocol::ProtocolMessage;

#[test]
fn test_embed_request_serialization() {
    let request = EmbedRequest {
        text: "Hello, world!".to_string(),
        model: Some("All MiniLM L6 v2".to_string()),
    };

    let serialized = serialize_request(&request).unwrap();
    let deserialized = deserialize_request(&serialized).unwrap();

    assert_eq!(request.text, deserialized.text);
    assert_eq!(request.model, deserialized.model);
}

#[test]
fn test_embed_response_formats() {
    let embedding: Vec<u32> = vec![0.1f32.to_bits(), 0.2f32.to_bits(), 0.3f32.to_bits()];

    let resp1 = EmbedResponse::DirectArray(embedding.clone());
    assert_eq!(resp1.get_embedding(), &embedding);

    let resp2 = EmbedResponse::Wrapped { embedding: embedding.clone() };
    assert_eq!(resp2.get_embedding(), &embedding);

    let resp3 = EmbedResponse::VectorWrapped { vector: embedding.clone() };
    assert_eq!(resp3.get_embedding(), &embedding);
}

#[test]
fn envelope_roundtrip_preserves_every_field() {
    let msg = ProtocolMessage::new(7, Some(42), vec![1, 2, 3, 4, 5]);
    let bytes = msg.encode();
    let (decoded, used) = ProtocolMessage::decode(&bytes).unwrap();
    assert_eq!(used, bytes.len());
    assert_eq!(decoded.sender_id, 7);
    assert_eq!(decoded.target_id, Some(42));
    assert_eq!(decoded.message_id, msg.message_id);
    assert_eq!(decoded.payload, vec![1, 2, 3, 4, 5]);
}

#[test]
fn envelope_roundtrip_without_target() {
    let msg = ProtocolMessage::new(9, None, Vec::new());
    let bytes = msg.encode();
    let (decoded, used) = ProtocolMessage::decode(&bytes).unwrap();
    assert_eq!(used, bytes.len());
    assert_eq!(decoded.sender_id, 9);
    assert_eq!(decoded.target_id, None);
    assert_eq!(decoded.message_id, msg.message_id);
    assert!(decoded.payload.is_empty());
}

#[test]
fn decode_rejects_bad_magic() {
    let bytes = vec![0u8; 64];
    assert_eq!(ProtocolMessage::decode(&bytes).unwrap_err(), DecodeError::BadMagic);
}

#[test]
fn decode_rejects_unsupported_version() {
    let mut bytes = vec![0x4F, 0x56, 0x4E, 0x54, 0x02];
    bytes.extend_from_slice(&[0u8; 60]);
    assert_eq!(
        ProtocolMessage::decode(&bytes).unwrap_err(),
        DecodeError::UnsupportedVersion { version: 2 }
    );
}

#[test]
fn decode_reports_truncation() {
    assert_eq!(ProtocolMessage::decode(&[]).unwrap_err(), DecodeError::Truncated);
    assert_eq!(ProtocolMessage::decode(&[0x4F, 0x56]).unwrap_err(), DecodeError::Truncated);
    let mut header = vec![0x4F, 0x56, 0x4E, 0x54, 0x01, 0x04];
    header.extend_from_slice(&[9, 0, 0, 0]);
    header.extend_from_slice(&[0u8; 17]);
    assert_eq!(ProtocolMessage::decode(&header).unwrap_err(), DecodeError::Truncated);
}

#[test]
fn request_without_model_roundtrips() {
    let request = EmbedRequest { text: "just text".to_string(), model: None };
    let serialized = serialize_request(&request).unwrap();
    let deserialized = deserialize_request(&serialized).unwrap();
    assert_eq!(deserialized.text, "just text");
    assert_eq!(deserialized.model, None);
}

#[test]
fn request_decode_rejects_garbage() {
    assert!(deserialize_request(&[]).is_err());
    assert!(deserialize_request(&[0x93, 1, 2]).is_err());
    let request = EmbedRequest { text: "x".to_string(), model: None };
    let mut serialized = serialize_request(&request).unwrap();
    serialized.push(0);
    assert!(deserialize_request(&serialized).is_err());
}

#[test]
fn response_emits_bare_array_for_every_shape() {
    let bits: Vec<u32> = vec![1.0f32.to_bits(), (-2.5f32).to_bits()];
    let direct = serialize_response(&EmbedResponse::DirectArray(bits.clone())).unwrap();
    let wrapped = serialize_response(&EmbedResponse::Wrapped { embedding: bits.clone() }).unwrap();
    let vector =
        serialize_response(&EmbedResponse::VectorWrapped { vector: bits.clone() }).unwrap();
    assert_eq!(direct, wrapped);
    assert_eq!(direct, vector);
    assert_eq!(direct[0], 0xdd);
    assert_eq!(&direct[1..5], &[0, 0, 0, 2]);
    assert_eq!(direct[5], 0xca);
    assert_eq!(&direct[6..10], &1.0f32.to_bits().to_be_bytes());
}

#[test]
fn response_roundtrips_as_direct_array() {
    let bits: Vec<u32> = vec![0.5f32.to_bits(), 0.25f32.to_bits(), 0.125f32.to_bits()];
    let serialized = serialize_response(&EmbedResponse::Wrapped { embedding: bits.clone() }).unwrap();
    match deserialize_response(&serialized).unwrap() {
        EmbedResponse::DirectArray(v) => assert_eq!(v, bits),
        _ => panic!("expected the bare-array shape"),
    }
}

fn msg_str_bytes(s: &str) -> Vec<u8> {
    let mut out = vec![0xdb];
    out.extend_from_slice(&(s.len() as u32).to_be_bytes());
    out.extend_from_slice(s.as_bytes());
    out
}

fn f32_array_bytes(values: &[f32]) -> Vec<u8> {
    let mut out = vec![0xdd];
    out.extend_from_slice(&(values.len() as u32).to_be_bytes());
    for v in values {
        out.push(0xca);
        out.extend_from_slice(&v.to_bits().to_be_bytes());
    }
    out
}

#[test]
fn response_accepts_embedding_map_shape() {
    let mut bytes = vec![0x81];
    bytes.extend_from_slice(&msg_str_bytes("embedding"));
    bytes.extend_from_slice(&f32_array_bytes(&[0.5, -0.5]));
    match deserialize_response(&bytes).unwrap() {
        EmbedResponse::Wrapped { embedding } => {
            assert_eq!(embedding, vec![0.5f32.to_bits(), (-0.5f32).to_bits()]);
        }
        _ => panic!("expected the embedding-map shape"),
    }
}

#[test]
fn response_accepts_vector_map_shape() {
    let mut bytes = vec![0x81];
    bytes.extend_from_slice(&msg_str_bytes("vector"));
    bytes.extend_from_slice(&f32_array_bytes(&[3.0]));
    match deserialize_response(&bytes).unwrap() {
        EmbedResponse::VectorWrapped { vector } => {
            assert_eq!(vector, vec![3.0f32.to_bits()]);
        }
        _ => panic!("expected the vector-map shape"),
    }
}

#[test]
fn response_rejects_unknown_map_key() {
    let mut bytes = vec![0x81];
    bytes.extend_from_slice(&msg_str_bytes("values"));
    bytes.extend_from_slice(&f32_array_bytes(&[3.0]));
    assert!(deserialize_response(&bytes).is_err());
}

#[test]
fn error_payload_shape() {
    let err = ErrorResponse { error: "boom".to_string() };
    let bytes = serialize_error(&err).unwrap();
    let mut expected = vec![0x91];
    expected.extend_from_slice(&msg_str_bytes("boom"));
    assert_eq!(bytes, expected);
}

#[test]
fn request_accepts_short_string_forms() {
    // fixstr text, nil model.
    let bytes = vec![0x92, 0xa2, b'h', b'i', 0xc0];
    let req = deserialize_request(&bytes).unwrap();
    assert_eq!(req.text, "hi");
    assert_eq!(req.model, None);

    // str8 text, fixstr model.
    let mut bytes = vec![0x92, 0xd9, 5];
    bytes.extend_from_slice(b"hello");
    bytes.extend_from_slice(&[0xa1, b'm']);
    let req = deserialize_request(&bytes).unwrap();
    assert_eq!(req.text, "hello");
    assert_eq!(req.model, Some("m".to_string()));

    // str16 text.
    let mut bytes = vec![0x92, 0xda, 0, 3];
    bytes.extend_from_slice(b"abc");
    bytes.push(0xc0);
    let req = deserialize_request(&bytes).unwrap();
    assert_eq!(req.text, "abc");
}

#[test]
fn response_accepts_short_array_forms() {
    // fixarray of two floats.
    let mut bytes = vec![0x92];
    bytes.push(0xca);
    bytes.extend_from_slice(&1.5f32.to_bits().to_be_bytes());
    bytes.push(0xca);
    bytes.extend_from_slice(&(-0.5f32).to_bits().to_be_bytes());
    match deserialize_response(&bytes).unwrap() {
        EmbedResponse::DirectArray(v) => {
            assert_eq!(v, vec![1.5f32.to_bits(), (-0.5f32).to_bits()]);
        }
        _ => panic!("expected the bare-array shape"),
    }

    // array16 of one float.
    let mut bytes = vec![0xdc, 0, 1, 0xca];
    bytes.extend_from_slice(&2.0f32.to_bits().to_be_bytes());
    match deserialize_response(&bytes).unwrap() {
        EmbedResponse::DirectArray(v) => assert_eq!(v, vec![2.0f32.to_bits()]),
        _ => panic!("expected the bare-array shape"),
    }
}

#[test]
fn wrapped_shapes_accept_fixstr_keys() {
    // {"embedding": fixarray[one float]} with the key as a fixstr, the
    // shortest forms an ordinary MessagePack encoder emits.
    let mut bytes = vec![0x81, 0xa9];
    bytes.extend_from_slice(b"embedding");
    bytes.push(0x91);
    bytes.push(0xca);
    bytes.extend_from_slice(&0.25f32.to_bits().to_be_bytes());
    match deserialize_response(&bytes).unwrap() {
        EmbedResponse::Wrapped { embedding } => {
            assert_eq!(embedding, vec![0.25f32.to_bits()]);
        }
        _ => panic!("expected the embedding-map shape"),
    }
}
