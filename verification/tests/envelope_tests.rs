use actix_middleware_discord_interactions::envelope::discriminator;
use actix_middleware_discord_interactions::envelope::is_handshake;
use actix_middleware_discord_interactions::gate::Decision;
use actix_middleware_discord_interactions::gate::respond_or_forward;

#[test]
fn reads_the_handshake_discriminator() {
    assert_eq!(discriminator("{\"type\":1}".as_bytes()), Some(1));
    assert!(is_handshake("{\"type\":1}".as_bytes()));
}

#[test]
fn reads_a_command_discriminator() {
    assert_eq!(
        discriminator("{\"type\":2,\"data\":{\"name\":\"greet\"}}".as_bytes()),
        Some(2)
    );
    assert!(!is_handshake("{\"type\":2}".as_bytes()));
}

#[test]
fn allows_whitespace_before_the_value() {
    assert_eq!(discriminator("{\"type\": \t\r\n 12}".as_bytes()), Some(12));
}

#[test]
fn reads_the_key_anywhere_in_the_payload() {
    assert_eq!(discriminator("{\"a\":5,\"type\":12}".as_bytes()), Some(12));
}

#[test]
fn the_first_occurrence_of_the_key_decides() {
    assert_eq!(discriminator("{\"type\":3,\"type\":4}".as_bytes()), Some(3));
}

#[test]
fn tolerates_leading_zeros() {
    assert_eq!(discriminator("{\"type\":001}".as_bytes()), Some(1));
    assert!(is_handshake("{\"type\":001}".as_bytes()));
}

#[test]
fn a_payload_without_the_key_has_no_discriminator() {
    assert_eq!(discriminator("{\"kind\":1}".as_bytes()), None);
    assert!(!is_handshake("{\"kind\":1}".as_bytes()));
}

#[test]
fn a_value_that_starts_with_no_digit_has_no_discriminator() {
    assert_eq!(discriminator("{\"type\":\"ping\"}".as_bytes()), None);
    assert_eq!(discriminator("{\"type\":}".as_bytes()), None);
    assert_eq!(discriminator("{\"type\":".as_bytes()), None);
}

#[test]
fn a_value_wider_than_a_machine_word_has_no_discriminator() {
    assert_eq!(
        discriminator("{\"type\":999999999999999999999999999999}".as_bytes()),
        None
    );
}

#[test]
fn the_largest_machine_value_is_still_read() {
    assert_eq!(
        discriminator("{\"type\":18446744073709551615}".as_bytes()),
        Some(u64::MAX)
    );
    assert_eq!(
        discriminator("{\"type\":18446744073709551616}".as_bytes()),
        None
    );
}

#[test]
fn an_empty_payload_has_no_discriminator() {
    assert_eq!(discriminator("".as_bytes()), None);
    assert!(!is_handshake("".as_bytes()));
}

#[test]
fn the_responder_answers_only_the_handshake() {
    assert_eq!(
        respond_or_forward(&"{\"type\":1}".as_bytes().to_vec()),
        Decision::Handshake
    );
    assert_eq!(
        respond_or_forward(&"{\"type\":2}".as_bytes().to_vec()),
        Decision::Forward
    );
    assert_eq!(
        respond_or_forward(&"not even a json object".as_bytes().to_vec()),
        Decision::Forward
    );
}
