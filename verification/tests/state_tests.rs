use tapper::number::{Number, NEGATIVE_ZERO};
use tapper::state::State;
use tapper::text::same_text;

#[test]
fn play_tag_is_play() {
    assert_eq!(State::from_str("play"), State::Play);
}

#[test]
fn result_screen_tag_is_result_screen() {
    assert_eq!(State::from_str("resultScreen"), State::ResultScreen);
}

#[test]
fn other_tags_are_other() {
    for tag in ["menu", "selectPlay", "edit", "", "lobby", "resultscreen", "Play", "PLAY"] {
        assert_eq!(State::from_str(tag), State::Other, "tag {:?}", tag);
    }
}

#[test]
fn tags_are_matched_whole() {
    assert_eq!(State::from_str("play "), State::Other);
    assert_eq!(State::from_str(" play"), State::Other);
    assert_eq!(State::from_str("pla"), State::Other);
    assert_eq!(State::from_str("playing"), State::Other);
    assert_eq!(State::from_str("\"play\""), State::Other);
    assert_eq!(State::from_str("resultScreen2"), State::Other);
}

#[test]
fn same_text_compares_characters() {
    assert!(same_text("", ""));
    assert!(same_text("play", "play"));
    assert!(!same_text("play", "plaY"));
    assert!(!same_text("play", "pla"));
    assert!(!same_text("pla", "play"));
    assert!(!same_text("", "a"));
}

#[test]
fn same_text_handles_characters_of_several_bytes() {
    assert!(same_text("夜に駆ける", "夜に駆ける"));
    assert!(!same_text("夜に駆ける", "夜に駆けろ"));
    assert!(!same_text("é", "e"));
    assert!(!same_text("é", "e\u{301}"));
}

#[test]
fn positive_zero_equals_zero() {
    assert!(Number { bits: 0.0f64.to_bits() }.equals_zero());
    assert!(Number { bits: 0 }.equals_zero());
}

#[test]
fn negative_zero_equals_zero() {
    assert_eq!((-0.0f64).to_bits(), NEGATIVE_ZERO);
    assert!(Number { bits: (-0.0f64).to_bits() }.equals_zero());
}

#[test]
fn nothing_else_equals_zero() {
    let values = [
        1.0f64,
        -1.0,
        0.5,
        100.0,
        f64::MIN_POSITIVE,
        f64::from_bits(1),
        -f64::from_bits(1),
        f64::EPSILON,
        f64::INFINITY,
        f64::NEG_INFINITY,
        f64::NAN,
        1e-300,
    ];
    for value in values {
        assert_eq!(Number { bits: value.to_bits() }.equals_zero(), value == 0.0, "value {:?}", value);
        assert!(!Number { bits: value.to_bits() }.equals_zero());
    }
}

#[test]
fn the_endpoint_is_the_local_server() {
    assert_eq!(tapper::endpoint::ENDPOINT, "ws://127.0.0.1:24050/websocket/v2");
    assert_eq!(
        tapper::endpoint::endpoint(),
        Some("ws://127.0.0.1:24050/websocket/v2".to_string())
    );
}
