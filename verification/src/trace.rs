//! What holds of a session over any sequence of events.

use vstd::prelude::*;
use crate::classifier::{completed, PlayResultView};
use crate::recorder::{begun, request_of, Phase, RecorderView};
use crate::session::{step_spec, ActionView, Event, Frame, Outcome, SessionView};
use crate::snapshot::snapshot_of;
use crate::store::{StoreReply, StoreRequestView};

verus! {

/// The session after all of `events`, taken in order.
pub open spec fn run(session: SessionView, events: Seq<Event>) -> SessionView
    decreases events.len(),
{
    if events.len() == 0 {
        session
    } else {
        run(step_spec(session, events[0]).0, events.drop_first())
    }
}

/// Whether `action` asks the store to insert a score.
pub open spec fn asks_for_score(action: ActionView) -> bool {
    action matches ActionView::Ask(StoreRequestView::CreateScore { .. })
}

/// How many times the session asks the store to insert a score while it
/// takes `events`.
pub open spec fn score_requests(session: SessionView, events: Seq<Event>) -> nat
    decreases events.len(),
{
    if events.len() == 0 {
        0
    } else {
        let (next, action) = step_spec(session, events[0]);
        let now: nat = if asks_for_score(action) {
            1
        } else {
            0
        };
        now + score_requests(next, events.drop_first())
    }
}

/// Whether `event` makes `session` end with a score recorded.
pub open spec fn records(session: SessionView, event: Event) -> bool {
    &&& !(session is Ended)
    &&& step_spec(session, event).0 matches SessionView::Ended(Outcome::Recorded { .. })
}

/// How many times the session comes to end with a score recorded while it
/// takes `events`.
pub open spec fn scores_recorded(session: SessionView, events: Seq<Event>) -> nat
    decreases events.len(),
{
    if events.len() == 0 {
        0
    } else {
        let now: nat = if records(session, events[0]) {
            1
        } else {
            0
        };
        now + scores_recorded(step_spec(session, events[0]).0, events.drop_first())
    }
}

/// How many score inserts a session may still ask for: one in each attempt
/// that has not yet come to its insert.
pub open spec fn score_requests_left(session: SessionView) -> nat {
    match session {
        SessionView::Listening => 2,
        SessionView::Recording(recorder) => {
            let later: nat = if recorder.retried {
                0
            } else {
                1
            };
            let current: nat = if recorder.phase is Inserting {
                0
            } else {
                1
            };
            later + current
        },
        SessionView::Ended(_) => 0,
    }
}

/// An ended session stays as it is and answers every event with the same
/// stop.
pub proof fn ended_session_stays_ended(outcome: Outcome, event: Event)
    ensures
        step_spec(SessionView::Ended(outcome), event) == (
            SessionView::Ended(outcome),
            ActionView::Stop(outcome),
        ),
{
}

/// Whatever an ended session is fed, it stays ended, asks for no score and
/// records none.
pub proof fn ended_session_does_nothing(outcome: Outcome, events: Seq<Event>)
    ensures
        run(SessionView::Ended(outcome), events) == SessionView::Ended(outcome),
        score_requests(SessionView::Ended(outcome), events) == 0,
        scores_recorded(SessionView::Ended(outcome), events) == 0,
    decreases events.len(),
{
    if events.len() > 0 {
        ended_session_does_nothing(outcome, events.drop_first());
    }
}

/// A session ends with a score recorded only when the store answers its
/// score insert with the key of the new score.
pub proof fn recorded_only_on_score_reply(session: SessionView, event: Event)
    requires
        records(session, event),
    ensures
        session matches SessionView::Recording(recorder) && recorder.phase is Inserting,
        event matches Event::Store(StoreReply::ScoreId(_)),
{
}

/// Over any sequence of events, a session records at most one score.
pub proof fn at_most_one_score_recorded(session: SessionView, events: Seq<Event>)
    ensures
        scores_recorded(session, events) <= 1,
    decreases events.len(),
{
    if events.len() > 0 {
        let next = step_spec(session, events[0]).0;
        if records(session, events[0]) {
            ended_session_does_nothing(next->Ended_0, events.drop_first());
        } else {
            at_most_one_score_recorded(next, events.drop_first());
        }
    }
}

/// Over any sequence of events, a session asks for a score insert at most
/// once in each of its two attempts.
pub proof fn at_most_two_score_requests(session: SessionView, events: Seq<Event>)
    ensures
        score_requests(session, events) <= score_requests_left(session),
        score_requests(session, events) <= 2,
    decreases events.len(),
{
    if events.len() > 0 {
        let (next, action) = step_spec(session, events[0]);
        at_most_two_score_requests(next, events.drop_first());
        let now: nat = if asks_for_score(action) {
            1
        } else {
            0
        };
        assert(now + score_requests_left(next) <= score_requests_left(session));
    }
}

/// A text frame that is no JSON document, or that lacks a field which was
/// needed, leaves a listening session listening.
pub proof fn malformed_frame_is_passed_over(text: String)
    requires
        match snapshot_of(text@) {
            Some(snapshot) => completed(snapshot) is Err,
            None => true,
        },
    ensures
        step_spec(SessionView::Listening, Event::Frame(Frame::Text(text))) == (
            SessionView::Listening,
            ActionView::Receive,
        ),
{
}

/// A malformed text frame ahead of other events changes nothing of what
/// follows.
pub proof fn malformed_frame_changes_nothing(text: String, events: Seq<Event>)
    requires
        match snapshot_of(text@) {
            Some(snapshot) => completed(snapshot) is Err,
            None => true,
        },
    ensures
        run(SessionView::Listening, seq![Event::Frame(Frame::Text(text))] + events) == run(
            SessionView::Listening,
            events,
        ),
        score_requests(SessionView::Listening, seq![Event::Frame(Frame::Text(text))] + events)
            == score_requests(SessionView::Listening, events),
        scores_recorded(SessionView::Listening, seq![Event::Frame(Frame::Text(text))] + events)
            == scores_recorded(SessionView::Listening, events),
{
    let all = seq![Event::Frame(Frame::Text(text))] + events;
    assert(all.drop_first() =~= events);
    assert(all[0] == Event::Frame(Frame::Text(text)));
}

/// Whether a listening session passes `event` over: a text frame that is
/// malformed or reports no concluded play, a binary, ping, pong or other
/// frame, or a store reply that nobody asked for.
pub open spec fn passed_over(event: Event) -> bool {
    match event {
        Event::Frame(Frame::Text(text)) => match snapshot_of(text@) {
            Some(snapshot) => !(completed(snapshot) matches Ok(Some(_))),
            None => true,
        },
        Event::Frame(Frame::Close) | Event::StreamEnded | Event::ConnectionError => false,
        _ => true,
    }
}

/// The events that are passed over are those that leave a listening
/// session listening, and it answers each by reading on.
pub proof fn passed_over_leaves_listening(event: Event)
    ensures
        passed_over(event) <==> step_spec(SessionView::Listening, event).0
            == SessionView::Listening,
        passed_over(event) ==> step_spec(SessionView::Listening, event).1 == ActionView::Receive,
{
}

/// Events that are passed over, ahead of other events, change nothing of
/// what follows.
pub proof fn passed_over_events_change_nothing(events: Seq<Event>, rest: Seq<Event>)
    requires
        forall|i: int| 0 <= i < events.len() ==> passed_over(#[trigger] events[i]),
    ensures
        run(SessionView::Listening, events + rest) == run(SessionView::Listening, rest),
        score_requests(SessionView::Listening, events + rest) == score_requests(
            SessionView::Listening,
            rest,
        ),
        scores_recorded(SessionView::Listening, events + rest) == scores_recorded(
            SessionView::Listening,
            rest,
        ),
    decreases events.len(),
{
    if events.len() == 0 {
        assert(events + rest =~= rest);
    } else {
        let all = events + rest;
        assert(all[0] == events[0]);
        assert(all.drop_first() =~= events.drop_first() + rest);
        assert(passed_over(events[0]));
        assert forall|i: int| 0 <= i < events.drop_first().len() implies passed_over(
            #[trigger] events.drop_first()[i],
        ) by {
            assert(events.drop_first()[i] == events[i + 1]);
        }
        passed_over_events_change_nothing(events.drop_first(), rest);
    }
}

/// A stream in which no play concludes leaves the session listening: no
/// score is asked for and none is recorded.
pub proof fn stream_without_concluded_play_records_nothing(events: Seq<Event>)
    requires
        forall|i: int| 0 <= i < events.len() ==> passed_over(#[trigger] events[i]),
    ensures
        run(SessionView::Listening, events) == SessionView::Listening,
        score_requests(SessionView::Listening, events) == 0,
        scores_recorded(SessionView::Listening, events) == 0,
{
    passed_over_events_change_nothing(events, Seq::<Event>::empty());
    assert(events + Seq::<Event>::empty() =~= events);
}

/// After any events that are passed over, a close frame or the end of the
/// stream ends the session as closed, and a connection error ends it as
/// failed; no score was asked for.
pub proof fn listening_stream_ends_on_close(events: Seq<Event>)
    requires
        forall|i: int| 0 <= i < events.len() ==> passed_over(#[trigger] events[i]),
    ensures
        run(SessionView::Listening, events.push(Event::Frame(Frame::Close))) == SessionView::Ended(
            Outcome::Closed,
        ),
        run(SessionView::Listening, events.push(Event::StreamEnded)) == SessionView::Ended(
            Outcome::Closed,
        ),
        run(SessionView::Listening, events.push(Event::ConnectionError)) == SessionView::Ended(
            Outcome::ConnectionError,
        ),
        score_requests(SessionView::Listening, events.push(Event::Frame(Frame::Close))) == 0,
        score_requests(SessionView::Listening, events.push(Event::StreamEnded)) == 0,
        score_requests(SessionView::Listening, events.push(Event::ConnectionError)) == 0,
{
    let close = seq![Event::Frame(Frame::Close)];
    let ended = seq![Event::StreamEnded];
    let error = seq![Event::ConnectionError];
    assert(events.push(Event::Frame(Frame::Close)) =~= events + close);
    assert(events.push(Event::StreamEnded) =~= events + ended);
    assert(events.push(Event::ConnectionError) =~= events + error);
    passed_over_events_change_nothing(events, close);
    passed_over_events_change_nothing(events, ended);
    passed_over_events_change_nothing(events, error);
    assert(close.drop_first() =~= Seq::<Event>::empty());
    assert(ended.drop_first() =~= Seq::<Event>::empty());
    assert(error.drop_first() =~= Seq::<Event>::empty());
    reveal_with_fuel(run, 2);
    reveal_with_fuel(score_requests, 2);
}

/// The session ends with the event that records its score: the answer is
/// to stop, and whatever follows, the session stays as it is, asks for no
/// score and records none.
pub proof fn session_ends_with_the_recorded_score(
    session: SessionView,
    event: Event,
    rest: Seq<Event>,
)
    requires
        records(session, event),
    ensures
        ({
            let (ended, action) = step_spec(session, event);
            &&& ended matches SessionView::Ended(outcome) && action == ActionView::Stop(outcome)
            &&& run(ended, rest) == ended
            &&& score_requests(ended, rest) == 0
            &&& scores_recorded(ended, rest) == 0
        }),
{
    let ended = step_spec(session, event).0;
    ended_session_does_nothing(ended->Ended_0, rest);
}

/// The frame of a concluded play, shown twice, records one score.
///
/// The first frame starts the recording; the store finds the map under
/// `map_set_id` and inserts the score under `score_id`; the session ends.
/// The second frame finds it ended: one score insert was asked for in all,
/// under the key of the map found, and one score was recorded.
pub proof fn repeated_result_frame_records_once(
    first: String,
    second: String,
    play: PlayResultView,
    map_set_id: i32,
    score_id: i32,
)
    requires
        snapshot_of(first@) matches Some(snapshot) && completed(snapshot) == Ok::<
            Option<PlayResultView>,
            crate::classifier::MissingField,
        >(Some(play)),
    ensures
        ({
            let events = seq![
                Event::Frame(Frame::Text(first)),
                Event::Store(StoreReply::MapId(map_set_id)),
                Event::Store(StoreReply::ScoreId(score_id)),
                Event::Frame(Frame::Text(second)),
            ];
            &&& run(SessionView::Listening, events) == SessionView::Ended(
                Outcome::Recorded { score_id, map_set_id },
            )
            &&& score_requests(SessionView::Listening, events) == 1
            &&& scores_recorded(SessionView::Listening, events) == 1
        }),
{
    let recorded = SessionView::Ended(Outcome::Recorded { score_id, map_set_id });
    let e0 = Event::Frame(Frame::Text(first));
    let e1 = Event::Store(StoreReply::MapId(map_set_id));
    let e2 = Event::Store(StoreReply::ScoreId(score_id));
    let e3 = Event::Frame(Frame::Text(second));
    let events = seq![e0, e1, e2, e3];
    let s1 = SessionView::Recording(begun(play));
    let s2 = SessionView::Recording(
        RecorderView { play, phase: Phase::Inserting { map_set_id }, retried: false },
    );
    assert(step_spec(SessionView::Listening, e0).0 == s1);
    assert(step_spec(s1, e1).0 == s2);
    assert(asks_for_score(step_spec(s1, e1).1));
    assert(step_spec(s2, e2).0 == recorded);
    assert(events.drop_first() =~= seq![e1, e2, e3]);
    assert(seq![e1, e2, e3].drop_first() =~= seq![e2, e3]);
    assert(seq![e2, e3].drop_first() =~= seq![e3]);
    ended_session_does_nothing(Outcome::Recorded { score_id, map_set_id }, seq![e3]);
    reveal_with_fuel(run, 4);
    reveal_with_fuel(score_requests, 4);
    reveal_with_fuel(scores_recorded, 4);
}

/// The frame of a concluded play whose map the store does not know
/// records one score under the key of the map that is then inserted.
pub proof fn unknown_map_is_created_then_used(
    frame: String,
    play: PlayResultView,
    map_set_id: i32,
    score_id: i32,
)
    requires
        snapshot_of(frame@) matches Some(snapshot) && completed(snapshot) == Ok::<
            Option<PlayResultView>,
            crate::classifier::MissingField,
        >(Some(play)),
    ensures
        ({
            let events = seq![
                Event::Frame(Frame::Text(frame)),
                Event::Store(StoreReply::NoSuchMap),
                Event::Store(StoreReply::MapId(map_set_id)),
                Event::Store(StoreReply::ScoreId(score_id)),
            ];
            &&& run(SessionView::Listening, events) == SessionView::Ended(
                Outcome::Recorded { score_id, map_set_id },
            )
            &&& score_requests(SessionView::Listening, events) == 1
            &&& scores_recorded(SessionView::Listening, events) == 1
        }),
{
    let e0 = Event::Frame(Frame::Text(frame));
    let e1 = Event::Store(StoreReply::NoSuchMap);
    let e2 = Event::Store(StoreReply::MapId(map_set_id));
    let e3 = Event::Store(StoreReply::ScoreId(score_id));
    let events = seq![e0, e1, e2, e3];
    let s1 = SessionView::Recording(begun(play));
    let s2 = SessionView::Recording(
        RecorderView { play, phase: Phase::Creating, retried: false },
    );
    let s3 = SessionView::Recording(
        RecorderView { play, phase: Phase::Inserting { map_set_id }, retried: false },
    );
    assert(step_spec(SessionView::Listening, e0).0 == s1);
    assert(step_spec(s1, e1).0 == s2);
    assert(step_spec(s2, e2).0 == s3);
    assert(asks_for_score(step_spec(s2, e2).1));
    assert(events.drop_first() =~= seq![e1, e2, e3]);
    assert(seq![e1, e2, e3].drop_first() =~= seq![e2, e3]);
    assert(seq![e2, e3].drop_first() =~= seq![e3]);
    assert(seq![e3].drop_first() =~= Seq::<Event>::empty());
    reveal_with_fuel(run, 5);
    reveal_with_fuel(score_requests, 5);
    reveal_with_fuel(scores_recorded, 5);
}

} // verus!
