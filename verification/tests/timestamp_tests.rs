use tapper::number::Number;
use tapper::store::{NewMapSet, NewScoreSet};
use tapper::classifier::PlayResult;
use tapper::timestamp::{check_timestamp, TIMESTAMP_LEN, TIMESTAMP_PATTERN};

#[test]
fn a_date_text_is_accepted() {
    assert!(check_timestamp("2026-10-28 22:04:05"));
    assert!(check_timestamp("0000-00-00 00:00:00"));
    assert!(check_timestamp("9999-12-31 23:59:60"));
    assert_eq!("2026-10-28 22:04:05".len(), TIMESTAMP_LEN);
}

#[test]
fn a_wrong_length_is_rejected() {
    assert!(!check_timestamp(""));
    assert!(!check_timestamp("2026-10-28 22:04:0"));
    assert!(!check_timestamp("2026-10-28 22:04:050"));
    assert!(!check_timestamp("+12026-10-28 22:04:05"));
    assert!(!check_timestamp("2026-10-28"));
}

#[test]
fn a_wrong_separator_is_rejected() {
    assert!(!check_timestamp("2026/10-28 22:04:05"));
    assert!(!check_timestamp("2026-10/28 22:04:05"));
    assert!(!check_timestamp("2026-10-28T22:04:05"));
    assert!(!check_timestamp("2026-10-28 22.04:05"));
    assert!(!check_timestamp("2026-10-28 22:04.05"));
    assert!(!check_timestamp("2026-10-28-22:04:05"));
}

#[test]
fn anything_but_a_digit_in_a_digit_slot_is_rejected() {
    let good = "2026-10-28 22:04:05";
    for slot in [0, 1, 2, 3, 5, 6, 8, 9, 11, 12, 14, 15, 17, 18] {
        for wrong in ['a', ' ', '-', ':', '/', 'Z'] {
            let mut text: Vec<char> = good.chars().collect();
            text[slot] = wrong;
            let text: String = text.into_iter().collect();
            assert!(!check_timestamp(&text), "text {:?}", text);
        }
    }
}

#[test]
fn a_digit_in_a_separator_slot_is_rejected() {
    let good = "2026-10-28 22:04:05";
    for slot in [4, 7, 10, 13, 16] {
        let mut text: Vec<char> = good.chars().collect();
        text[slot] = '0';
        let text: String = text.into_iter().collect();
        assert!(!check_timestamp(&text), "text {:?}", text);
    }
}

#[test]
fn characters_beyond_ascii_are_rejected() {
    assert!(!check_timestamp("２０２６-10-28 22:04:05"));
    assert!(!check_timestamp("2026-10-28 22:04:0５"));
    assert!(!check_timestamp("2026-10-28\u{a0}22:04:05"));
    // nineteen bytes, seventeen characters
    assert!(!check_timestamp("2026-10-28 22:0éé"));
}

#[test]
fn a_dated_score_holds_what_it_was_given() {
    let accuracy = Number { bits: 0.97f64.to_bits() };
    let unstable_rate = Number { bits: 85.3f64.to_bits() };
    let row = NewScoreSet::dated(accuracy, unstable_rate, Some(4), "2026-10-28 22:04:05".to_string());
    assert_eq!(
        row,
        Some(NewScoreSet {
            accuracy,
            unstable_rate,
            date: "2026-10-28 22:04:05".to_string(),
            map_set_id: Some(4),
        })
    );
    let orphan = NewScoreSet::dated(accuracy, unstable_rate, None, "2026-10-28 22:04:05".to_string());
    assert_eq!(orphan.unwrap().map_set_id, None);
}

#[test]
fn a_score_with_a_malformed_date_is_not_made() {
    let number = Number { bits: 0 };
    assert_eq!(NewScoreSet::dated(number, number, Some(1), "yesterday".to_string()), None);
    assert_eq!(NewScoreSet::dated(number, number, Some(1), "2026-10-28T22:04:05".to_string()), None);
    assert_eq!(NewScoreSet::dated(number, number, None, String::new()), None);
}

#[test]
fn a_score_made_now_is_dated_by_the_local_clock() {
    let accuracy = Number { bits: 0.97f64.to_bits() };
    let unstable_rate = Number { bits: 85.3f64.to_bits() };
    let before = chrono::Local::now().format("%Y-%m-%d %H:%M:%S").to_string();
    let row = NewScoreSet::now(accuracy, unstable_rate, Some(7)).expect("a clock in this era");
    let after = chrono::Local::now().format("%Y-%m-%d %H:%M:%S").to_string();
    assert_eq!(row.accuracy, accuracy);
    assert_eq!(row.unstable_rate, unstable_rate);
    assert_eq!(row.map_set_id, Some(7));
    assert!(check_timestamp(&row.date));
    assert_eq!(row.date.len(), 19);
    assert!(before <= row.date && row.date <= after, "{} <= {} <= {}", before, row.date, after);
}

#[test]
fn the_map_of_a_play_has_its_title_and_version_and_no_tempo() {
    let play = PlayResult {
        accuracy: Number { bits: 0.97f64.to_bits() },
        unstable_rate: Number { bits: 85.3f64.to_bits() },
        title: "Example Song".to_string(),
        version: "Hard".to_string(),
    };
    assert_eq!(
        NewMapSet::for_play(&play),
        NewMapSet { title: "Example Song".to_string(), version: "Hard".to_string(), bpm: None }
    );
}

#[test]
fn the_pattern_renders_a_moment_as_a_date_text() {
    assert_eq!(TIMESTAMP_PATTERN, "%Y-%m-%d %H:%M:%S");
    let moment = chrono::DateTime::from_timestamp(1_431_648_000, 0).unwrap();
    let text = moment.format(TIMESTAMP_PATTERN).to_string();
    assert_eq!(text, "2015-05-15 00:00:00");
    assert!(check_timestamp(&text));
    let later = chrono::DateTime::from_timestamp(1_431_648_000 + 86_400 + 3_723, 0).unwrap();
    assert_eq!(later.format(TIMESTAMP_PATTERN).to_string(), "2015-05-16 01:02:03");
}
