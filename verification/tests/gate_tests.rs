use actix_middleware_discord_interactions::gate::Decision;
use actix_middleware_discord_interactions::gate::DiscordInteractions;
use actix_middleware_discord_interactions::gate::DiscordInteractionsMiddleware;
use actix_middleware_discord_interactions::gate::build_canonical_message;
use actix_middleware_discord_interactions::gate::handshake_response;
use actix_middleware_discord_interactions::gate::rejection_response;

use ed25519_dalek::ExpandedSecretKey;
use ed25519_dalek::PublicKey;
use ed25519_dalek::SecretKey;

fn to_hex(bytes: &[u8]) -> Vec<u8> {
    let mut out = Vec::new();
    for b in bytes {
        out.extend(format!("{:02x}", b).into_bytes());
    }
    out
}

fn test_key() -> (PublicKey, ExpandedSecretKey) {
    let secret = SecretKey::from_bytes(&[7u8; 32]).unwrap();
    let public = PublicKey::from(&secret);
    let expanded = ExpandedSecretKey::from(&secret);
    (public, expanded)
}

fn middleware_for(public: &PublicKey) -> DiscordInteractionsMiddleware {
    let factory = DiscordInteractions {
        public_key: to_hex(public.as_bytes()),
    };
    factory.new_transform()
}

fn sign(expanded: &ExpandedSecretKey, public: &PublicKey, timestamp: &[u8], body: &[u8]) -> Vec<u8> {
    let message = build_canonical_message(timestamp, body);
    let signature = expanded.sign(&message, public);
    to_hex(&signature.to_bytes())
}

#[test]
fn handshake_request_is_answered_directly() {
    let (public, expanded) = test_key();
    let middleware = middleware_for(&public);
    let timestamp = "1700000000".as_bytes().to_vec();
    let body = "{\"type\":1}".as_bytes().to_vec();
    let signature = sign(&expanded, &public, &timestamp, &body);

    let decision = middleware.intercept(Some(&signature), Some(&timestamp), &body);
    assert_eq!(decision, Decision::Handshake);

    let response = handshake_response();
    assert_eq!(response.status, 200);
    assert_eq!(response.body, "{\"type\":1}".as_bytes().to_vec());
}

#[test]
fn verified_command_request_is_forwarded() {
    let (public, expanded) = test_key();
    let middleware = middleware_for(&public);
    let timestamp = "1700000000".as_bytes().to_vec();
    let body = "{\"type\":2,\"data\":{\"name\":\"greet\"}}".as_bytes().to_vec();
    let signature = sign(&expanded, &public, &timestamp, &body);

    let decision = middleware.intercept(Some(&signature), Some(&timestamp), &body);
    assert_eq!(decision, Decision::Forward);
}

#[test]
fn flipped_signature_byte_is_rejected() {
    let (public, expanded) = test_key();
    let middleware = middleware_for(&public);
    let timestamp = "1700000000".as_bytes().to_vec();
    let body = "{\"type\":1}".as_bytes().to_vec();
    let message = build_canonical_message(&timestamp, &body);
    let mut raw = expanded.sign(&message, &public).to_bytes().to_vec();
    raw[0] ^= 0x01;
    let signature = to_hex(&raw);

    let decision = middleware.intercept(Some(&signature), Some(&timestamp), &body);
    assert_eq!(decision, Decision::Reject);

    let response = rejection_response();
    assert_eq!(response.status, 401);
    assert_eq!(response.body, "Unauthorized".as_bytes().to_vec());
}

#[test]
fn flipped_body_byte_is_rejected() {
    let (public, expanded) = test_key();
    let middleware = middleware_for(&public);
    let timestamp = "1700000000".as_bytes().to_vec();
    let body = "{\"type\":2,\"data\":{\"name\":\"greet\"}}".as_bytes().to_vec();
    let signature = sign(&expanded, &public, &timestamp, &body);

    let mut tampered = body.clone();
    tampered[12] ^= 0x20;
    let decision = middleware.intercept(Some(&signature), Some(&timestamp), &tampered);
    assert_eq!(decision, Decision::Reject);
}

#[test]
fn flipped_timestamp_byte_is_rejected() {
    let (public, expanded) = test_key();
    let middleware = middleware_for(&public);
    let timestamp = "1700000000".as_bytes().to_vec();
    let body = "{\"type\":2}".as_bytes().to_vec();
    let signature = sign(&expanded, &public, &timestamp, &body);

    let mut tampered = timestamp.clone();
    tampered[0] ^= 0x01;
    let decision = middleware.intercept(Some(&signature), Some(&tampered), &body);
    assert_eq!(decision, Decision::Reject);
}

#[test]
fn missing_signature_header_is_rejected() {
    let (public, _) = test_key();
    let middleware = middleware_for(&public);
    let timestamp = "1700000000".as_bytes().to_vec();
    let body = "{\"type\":1}".as_bytes().to_vec();

    let decision = middleware.intercept(None, Some(&timestamp), &body);
    assert_eq!(decision, Decision::Reject);
}

#[test]
fn missing_timestamp_header_is_rejected() {
    let (public, expanded) = test_key();
    let middleware = middleware_for(&public);
    let timestamp = "1700000000".as_bytes().to_vec();
    let body = "{\"type\":1}".as_bytes().to_vec();
    let signature = sign(&expanded, &public, &timestamp, &body);

    let decision = middleware.intercept(Some(&signature), None, &body);
    assert_eq!(decision, Decision::Reject);
}

#[test]
fn identical_request_twice_meets_one_outcome() {
    let (public, expanded) = test_key();
    let middleware = middleware_for(&public);
    let timestamp = "1700000000".as_bytes().to_vec();
    let body = "{\"type\":1}".as_bytes().to_vec();
    let signature = sign(&expanded, &public, &timestamp, &body);

    let first = middleware.intercept(Some(&signature), Some(&timestamp), &body);
    let second = middleware.intercept(Some(&signature), Some(&timestamp), &body);
    assert_eq!(first, second);
    assert_eq!(first, Decision::Handshake);
}

#[test]
fn wrong_trust_material_is_rejected() {
    let (public, expanded) = test_key();
    let other_secret = SecretKey::from_bytes(&[9u8; 32]).unwrap();
    let other_public = PublicKey::from(&other_secret);
    let middleware = middleware_for(&other_public);
    let timestamp = "1700000000".as_bytes().to_vec();
    let body = "{\"type\":1}".as_bytes().to_vec();
    let signature = sign(&expanded, &public, &timestamp, &body);

    let decision = middleware.intercept(Some(&signature), Some(&timestamp), &body);
    assert_eq!(decision, Decision::Reject);
}

#[test]
fn signature_that_is_no_hex_is_rejected() {
    let (public, _) = test_key();
    let middleware = middleware_for(&public);
    let timestamp = "1700000000".as_bytes().to_vec();
    let body = "{\"type\":1}".as_bytes().to_vec();
    let signature = vec![b'z'; 128];

    let decision = middleware.intercept(Some(&signature), Some(&timestamp), &body);
    assert_eq!(decision, Decision::Reject);
}

#[test]
fn signature_of_odd_hex_length_is_rejected() {
    let (public, expanded) = test_key();
    let middleware = middleware_for(&public);
    let timestamp = "1700000000".as_bytes().to_vec();
    let body = "{\"type\":1}".as_bytes().to_vec();
    let mut signature = sign(&expanded, &public, &timestamp, &body);
    signature.pop();

    let decision = middleware.intercept(Some(&signature), Some(&timestamp), &body);
    assert_eq!(decision, Decision::Reject);
}

#[test]
fn empty_header_or_body_is_rejected() {
    let (public, expanded) = test_key();
    let middleware = middleware_for(&public);
    let timestamp = "1700000000".as_bytes().to_vec();
    let body = "{\"type\":1}".as_bytes().to_vec();
    let signature = sign(&expanded, &public, &timestamp, &body);
    let empty: Vec<u8> = Vec::new();

    assert_eq!(
        middleware.intercept(Some(&empty), Some(&timestamp), &body),
        Decision::Reject
    );
    assert_eq!(
        middleware.intercept(Some(&signature), Some(&empty), &body),
        Decision::Reject
    );
    assert_eq!(
        middleware.intercept(Some(&signature), Some(&timestamp), &empty),
        Decision::Reject
    );
}

#[test]
fn new_transform_keeps_the_trust_material() {
    let key_hex = to_hex(&[3u8; 32]);
    let factory = DiscordInteractions {
        public_key: key_hex.clone(),
    };
    let middleware = factory.new_transform();
    assert_eq!(middleware.public_key, key_hex);
}

#[test]
fn canonical_message_is_plain_concatenation() {
    let message = build_canonical_message("1700000000".as_bytes(), "{\"type\":1}".as_bytes());
    assert_eq!(message, "1700000000{\"type\":1}".as_bytes().to_vec());
}
