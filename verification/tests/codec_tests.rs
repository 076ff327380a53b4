use hackathon::codec::{decode_state, encode_state};
use hackathon::entity::{Hacker, HackerMood, HackerSitState};
use hackathon::world::{GameState, WeatherState};

fn sample_state() -> GameState {
    let mut state = GameState::default();
    let mut first = Hacker::default();
    first.mood = HackerMood::Sad;
    first.hunger = 7;
    first.position = (5, 5);
    state.hackers.push(first);
    let mut second = Hacker::default();
    second.sit_state = HackerSitState::Standing;
    second.position = (65535, 0);
    state.hackers.push(second);
    state
}

#[test]
fn encoding_is_exactly_header_then_five_words_per_entity() {
    let state = sample_state();
    let words = encode_state(&state);
    assert_eq!(
        words,
        vec![0, 0, 0, 1, 7, 0, 5, 5, 0, 0, 1, 65535, 0]
    );
}

#[test]
fn round_trip_preserves_entity_order_and_every_field() {
    let state = sample_state();
    let words = encode_state(&state);
    let restored = decode_state(&words).expect("a fresh encoding restores");
    assert_eq!(restored, state);
}

#[test]
fn round_trip_of_an_empty_world() {
    let state = GameState::default();
    let words = encode_state(&state);
    assert_eq!(words, vec![0, 0, 0]);
    let restored = decode_state(&words).expect("a fresh encoding restores");
    assert_eq!(restored, state);
}

#[test]
fn decode_rejects_a_truncated_header() {
    assert_eq!(decode_state(&vec![]), None);
    assert_eq!(decode_state(&vec![0, 0]), None);
}

#[test]
fn decode_rejects_a_bad_weather_tag() {
    assert_eq!(decode_state(&vec![0, 0, 4]), None);
}

#[test]
fn decode_rejects_counters_out_of_range() {
    assert_eq!(decode_state(&vec![u64::from(u32::MAX) + 1, 0, 0]), None);
    assert_eq!(decode_state(&vec![0, u64::from(u32::MAX) + 1, 0]), None);
}

#[test]
fn decode_rejects_a_truncated_entity() {
    assert_eq!(decode_state(&vec![0, 0, 0, 1, 7]), None);
}

#[test]
fn decode_rejects_bad_entity_words() {
    // Mood tag out of range.
    assert_eq!(decode_state(&vec![0, 0, 0, 2, 7, 0, 5, 5]), None);
    // Sitting tag out of range.
    assert_eq!(decode_state(&vec![0, 0, 0, 1, 7, 2, 5, 5]), None);
    // Column out of range.
    assert_eq!(decode_state(&vec![0, 0, 0, 1, 7, 0, 65536, 5]), None);
}

#[test]
fn decode_accepts_every_weather() {
    for (tag, weather) in [
        (0, WeatherState::Clear),
        (1, WeatherState::Rain),
        (2, WeatherState::Snow),
        (3, WeatherState::Hail),
    ] {
        let restored = decode_state(&vec![9, 8, tag]).expect("a valid header restores");
        assert_eq!(restored.time, 9);
        assert_eq!(restored.money, 8);
        assert_eq!(restored.weather, weather);
        assert!(restored.hackers.is_empty());
    }
}
