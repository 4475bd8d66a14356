use gamebridge::decode::decode_game_state;
use gamebridge::decode::interpret_fields;
use gamebridge::state::DecodeError;
use gamebridge::state::GameState;

fn gameplay_doc(k1: &str, k2: &str, hp: &str) -> String {
    format!(
        "{{\"menu\":{{\"state\":2}},\"gameplay\":{{\"keyOverlay\":{{\"k1\":{{\"isPressed\":{}}},\"k2\":{{\"isPressed\":{}}}}},\"hp\":{{\"smooth\":{}}}}}}}",
        k1, k2, hp
    )
}

#[test]
fn gameplay_document_decodes_fully() {
    let raw = gameplay_doc("true", "false", "1.0");
    assert_eq!(
        decode_game_state(&raw),
        Ok(GameState::Gameplay { k1: true, k2: false, hp: 1000 })
    );
}

#[test]
fn health_reads_in_thousandths() {
    let raw = gameplay_doc("false", "false", "0.5");
    assert_eq!(
        decode_game_state(&raw),
        Ok(GameState::Gameplay { k1: false, k2: false, hp: 500 })
    );
    let raw = gameplay_doc("false", "false", "0");
    assert_eq!(
        decode_game_state(&raw),
        Ok(GameState::Gameplay { k1: false, k2: false, hp: 0 })
    );
}

#[test]
fn other_mode_codes_are_unknown() {
    assert_eq!(decode_game_state("{\"menu\":{\"state\":0}}"), Ok(GameState::Unknown));
    assert_eq!(decode_game_state("{\"menu\":{\"state\":7}}"), Ok(GameState::Unknown));
    assert_eq!(decode_game_state("{\"menu\":{\"state\":300}}"), Ok(GameState::Unknown));
}

#[test]
fn absent_mode_is_unknown() {
    assert_eq!(decode_game_state("{}"), Ok(GameState::Unknown));
    assert_eq!(decode_game_state("{\"menu\":{}}"), Ok(GameState::Unknown));
    assert_eq!(decode_game_state("{\"menu\":{\"state\":null}}"), Ok(GameState::Unknown));
}

#[test]
fn malformed_document_is_fatal() {
    assert_eq!(decode_game_state(""), Err(DecodeError::Malformed));
    assert_eq!(decode_game_state("{\"menu\":"), Err(DecodeError::Malformed));
    assert_eq!(decode_game_state("not json"), Err(DecodeError::Malformed));
}

#[test]
fn mistyped_mode_is_fatal() {
    assert_eq!(
        decode_game_state("{\"menu\":{\"state\":\"2\"}}"),
        Err(DecodeError::MenuStateType)
    );
    assert_eq!(
        decode_game_state("{\"menu\":{\"state\":true}}"),
        Err(DecodeError::MenuStateType)
    );
}

#[test]
fn gameplay_fields_are_required_in_gameplay_mode() {
    // k1 missing entirely.
    assert_eq!(
        decode_game_state("{\"menu\":{\"state\":2}}"),
        Err(DecodeError::Key1)
    );
    // k1 mistyped.
    let raw = gameplay_doc("\"yes\"", "false", "1.0");
    assert_eq!(decode_game_state(&raw), Err(DecodeError::Key1));
    // k2 mistyped, k1 fine.
    let raw = gameplay_doc("true", "0", "1.0");
    assert_eq!(decode_game_state(&raw), Err(DecodeError::Key2));
    // hp mistyped or out of range.
    let raw = gameplay_doc("true", "false", "\"full\"");
    assert_eq!(decode_game_state(&raw), Err(DecodeError::Health));
    let raw = gameplay_doc("true", "false", "-0.25");
    assert_eq!(decode_game_state(&raw), Err(DecodeError::Health));
}

#[test]
fn decoding_is_a_function_of_the_text() {
    let raw = gameplay_doc("true", "true", "0.75");
    assert_eq!(decode_game_state(&raw), decode_game_state(&raw));
    assert_eq!(
        decode_game_state(&raw),
        Ok(GameState::Gameplay { k1: true, k2: true, hp: 750 })
    );
}

#[test]
fn extra_fields_are_ignored() {
    let raw = "{\"menu\":{\"state\":2,\"mods\":4},\"chat\":[1,2],\"gameplay\":{\"score\":991,\"keyOverlay\":{\"k1\":{\"isPressed\":false,\"count\":9},\"k2\":{\"isPressed\":true}},\"hp\":{\"smooth\":0.25,\"normal\":0.5}}}";
    assert_eq!(
        decode_game_state(raw),
        Ok(GameState::Gameplay { k1: false, k2: true, hp: 250 })
    );
}

#[test]
fn interpretation_of_read_fields_is_exact() {
    // Absent mode wins over everything else.
    assert_eq!(
        interpret_fields(true, false, None, None, None, None),
        Ok(GameState::Unknown)
    );
    // Present but non-numeric mode is a type mismatch.
    assert_eq!(
        interpret_fields(false, false, None, Some(true), Some(true), Some(1000)),
        Err(DecodeError::MenuStateType)
    );
    // Numeric mode other than 2 is Unknown even with gameplay fields present.
    assert_eq!(
        interpret_fields(false, true, Some(5), Some(true), Some(true), Some(1000)),
        Ok(GameState::Unknown)
    );
    // A number too large for a byte reads as no recognized code.
    assert_eq!(
        interpret_fields(false, true, None, None, None, None),
        Ok(GameState::Unknown)
    );
    // Mode 2 demands each gameplay field in order.
    assert_eq!(
        interpret_fields(false, true, Some(2), None, Some(true), Some(1000)),
        Err(DecodeError::Key1)
    );
    assert_eq!(
        interpret_fields(false, true, Some(2), Some(true), None, Some(1000)),
        Err(DecodeError::Key2)
    );
    assert_eq!(
        interpret_fields(false, true, Some(2), Some(true), Some(false), None),
        Err(DecodeError::Health)
    );
    assert_eq!(
        interpret_fields(false, true, Some(2), Some(true), Some(false), Some(750)),
        Ok(GameState::Gameplay { k1: true, k2: false, hp: 750 })
    );
}
