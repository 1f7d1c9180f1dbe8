use tapper::classifier::PlayResult;
use tapper::number::Number;
use tapper::recorder::{Phase, Progress, Recorder};
use tapper::store::{NewMapSet, StoreReply, StoreRequest};

fn play() -> PlayResult {
    PlayResult {
        accuracy: Number { bits: 0.97f64.to_bits() },
        unstable_rate: Number { bits: 85.3f64.to_bits() },
        title: "Song A".to_string(),
        version: "Normal".to_string(),
    }
}

fn at(phase: Phase, retried: bool) -> Recorder {
    Recorder { play: play(), phase, retried }
}

fn find_map() -> StoreRequest {
    StoreRequest::FindMap { title: "Song A".to_string(), version: "Normal".to_string() }
}

fn create_map() -> StoreRequest {
    StoreRequest::CreateMap(NewMapSet {
        title: "Song A".to_string(),
        version: "Normal".to_string(),
        bpm: None,
    })
}

fn create_score(map_set_id: i32) -> StoreRequest {
    StoreRequest::CreateScore {
        accuracy: Number { bits: 0.97f64.to_bits() },
        unstable_rate: Number { bits: 85.3f64.to_bits() },
        map_set_id,
    }
}

#[test]
fn a_recording_begins_with_the_map_lookup() {
    let recorder = Recorder::begin(play());
    assert_eq!(recorder, at(Phase::Resolving, false));
    assert_eq!(recorder.request(), find_map());
}

#[test]
fn each_phase_asks_its_own_request() {
    assert_eq!(at(Phase::Resolving, true).request(), find_map());
    assert_eq!(at(Phase::Creating, false).request(), create_map());
    assert_eq!(at(Phase::Inserting { map_set_id: 12 }, false).request(), create_score(12));
    assert_eq!(at(Phase::Inserting { map_set_id: -1 }, true).request(), create_score(-1));
}

#[test]
fn a_found_map_leads_to_the_score_insert_under_its_key() {
    let next = Recorder::begin(play()).step(StoreReply::MapId(41));
    assert_eq!(next, Progress::Ask(at(Phase::Inserting { map_set_id: 41 }, false)));
    match next {
        Progress::Ask(recorder) => assert_eq!(recorder.request(), create_score(41)),
        other => panic!("unexpected {:?}", other),
    }
}

#[test]
fn a_missing_map_is_created_and_then_used() {
    let next = Recorder::begin(play()).step(StoreReply::NoSuchMap);
    assert_eq!(next, Progress::Ask(at(Phase::Creating, false)));
    let next = at(Phase::Creating, false).step(StoreReply::MapId(5));
    assert_eq!(next, Progress::Ask(at(Phase::Inserting { map_set_id: 5 }, false)));
}

#[test]
fn an_inserted_score_ends_the_recording() {
    let next = at(Phase::Inserting { map_set_id: 5 }, false).step(StoreReply::ScoreId(77));
    assert_eq!(next, Progress::Recorded { score_id: 77, map_set_id: 5 });
    let next = at(Phase::Inserting { map_set_id: 6 }, true).step(StoreReply::ScoreId(78));
    assert_eq!(next, Progress::Recorded { score_id: 78, map_set_id: 6 });
}

#[test]
fn a_first_failure_starts_the_attempt_over() {
    for phase in [Phase::Resolving, Phase::Creating, Phase::Inserting { map_set_id: 5 }] {
        let next = at(phase, false).step(StoreReply::Failed);
        assert_eq!(next, Progress::Ask(at(Phase::Resolving, true)), "phase {:?}", phase);
    }
}

#[test]
fn a_second_failure_ends_the_recording() {
    for phase in [Phase::Resolving, Phase::Creating, Phase::Inserting { map_set_id: 5 }] {
        assert_eq!(at(phase, true).step(StoreReply::Failed), Progress::Failed, "phase {:?}", phase);
    }
}

#[test]
fn a_reply_that_does_not_answer_the_request_fails_the_attempt() {
    let retry = Progress::Ask(at(Phase::Resolving, true));
    assert_eq!(at(Phase::Resolving, false).step(StoreReply::ScoreId(1)), retry);
    assert_eq!(at(Phase::Creating, false).step(StoreReply::NoSuchMap), retry);
    assert_eq!(at(Phase::Creating, false).step(StoreReply::ScoreId(1)), retry);
    assert_eq!(at(Phase::Inserting { map_set_id: 5 }, false).step(StoreReply::MapId(5)), retry);
    assert_eq!(at(Phase::Inserting { map_set_id: 5 }, false).step(StoreReply::NoSuchMap), retry);
    assert_eq!(at(Phase::Resolving, true).step(StoreReply::ScoreId(1)), Progress::Failed);
    assert_eq!(at(Phase::Creating, true).step(StoreReply::NoSuchMap), Progress::Failed);
    assert_eq!(at(Phase::Inserting { map_set_id: 5 }, true).step(StoreReply::MapId(5)), Progress::Failed);
}

#[test]
fn the_second_attempt_keeps_the_play() {
    let first = at(Phase::Inserting { map_set_id: 5 }, false).step(StoreReply::Failed);
    let recorder = match first {
        Progress::Ask(recorder) => recorder,
        other => panic!("unexpected {:?}", other),
    };
    assert_eq!(recorder.play, play());
    assert_eq!(recorder.request(), find_map());
    let second = recorder.step(StoreReply::MapId(9));
    assert_eq!(second, Progress::Ask(at(Phase::Inserting { map_set_id: 9 }, true)));
}
