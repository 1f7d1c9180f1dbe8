//! One telemetry session, as a machine that the caller drives.
//!
//! The caller owns the socket and the store. It starts with
//! [`Session::new`] and [`Action::Receive`], performs each action, and hands
//! what happened to [`Session::step`], which answers with the next action.
//! A session records at most one score and then has ended for good.

use vstd::prelude::*;
use crate::classifier::{completed, completed_play};
use crate::recorder::{advance, after_failure, begun, request_of};
use crate::recorder::{Progress, ProgressView, Recorder, RecorderView};
use crate::snapshot::{read_snapshot, snapshot_of, snapshot_view, Snapshot, SnapshotView};
use crate::store::{StoreReply, StoreRequest, StoreRequestView};

verus! {

/// One frame from the socket. Only the payload of a text frame is kept.
#[derive(Clone, Debug, PartialEq, Eq)]
pub enum Frame {
    /// A text frame and its payload.
    Text(String),
    /// A binary frame.
    Binary,
    /// A ping.
    Ping,
    /// A pong.
    Pong,
    /// The peer closes the connection.
    Close,
    /// Any other frame.
    Other,
}

/// What the caller reports after performing an action.
#[derive(Clone, Debug, PartialEq, Eq)]
pub enum Event {
    /// A frame arrived.
    Frame(Frame),
    /// The stream of frames has ended.
    StreamEnded,
    /// The connection could not be made, or broke.
    ConnectionError,
    /// The store answered.
    Store(StoreReply),
}

/// How a session ended.
#[derive(Clone, Copy, Debug, PartialEq, Eq, Structural)]
pub enum Outcome {
    /// The score of the concluded play is in the store.
    Recorded { score_id: i32, map_set_id: i32 },
    /// The connection closed before a play concluded.
    Closed,
    /// The connection failed before a play concluded.
    ConnectionError,
    /// A play concluded and the store failed twice to record it.
    StoreFailed,
}

/// What the caller is to do next.
#[derive(Clone, Debug, PartialEq, Eq)]
pub enum Action {
    /// Read the next frame and report it.
    Receive,
    /// Put this request to the store and report the reply.
    Ask(StoreRequest),
    /// Stop: the session has ended in this way.
    Stop(Outcome),
}

/// The mathematical content of an [`Action`].
pub ghost enum ActionView {
    Receive,
    Ask(StoreRequestView),
    Stop(Outcome),
}

impl View for Action {
    type V = ActionView;

    open spec fn view(&self) -> ActionView {
        match *self {
            Action::Receive => ActionView::Receive,
            Action::Ask(request) => ActionView::Ask(request@),
            Action::Stop(outcome) => ActionView::Stop(outcome),
        }
    }
}

/// The state of a session.
#[derive(Clone, Debug, PartialEq, Eq)]
pub enum Session {
    /// No play has concluded yet; frames are being read.
    Listening,
    /// A play has concluded and its score is being recorded.
    Recording(Recorder),
    /// The session is over.
    Ended(Outcome),
}

/// The mathematical content of a [`Session`].
pub ghost enum SessionView {
    Listening,
    Recording(RecorderView),
    Ended(Outcome),
}

impl View for Session {
    type V = SessionView;

    open spec fn view(&self) -> SessionView {
        match *self {
            Session::Listening => SessionView::Listening,
            Session::Recording(recorder) => SessionView::Recording(recorder@),
            Session::Ended(outcome) => SessionView::Ended(outcome),
        }
    }
}

/// A listening session after a text frame that read as `snapshot`.
///
/// A frame that is no JSON document, or lacks a field that was needed, or
/// reports no concluded play, is passed over: the session listens on. A
/// concluded play starts the recording, which asks for its map.
pub open spec fn heard(snapshot: Option<SnapshotView>) -> (SessionView, ActionView) {
    match snapshot {
        Some(s) => match completed(s) {
            Ok(Some(play)) => (
                SessionView::Recording(begun(play)),
                ActionView::Ask(request_of(begun(play))),
            ),
            _ => (SessionView::Listening, ActionView::Receive),
        },
        None => (SessionView::Listening, ActionView::Receive),
    }
}

/// A recording session after its recorder has come to `progress`.
pub open spec fn progressed(progress: ProgressView) -> (SessionView, ActionView) {
    match progress {
        ProgressView::Ask(recorder) => (
            SessionView::Recording(recorder),
            ActionView::Ask(request_of(recorder)),
        ),
        ProgressView::Recorded { score_id, map_set_id } => (
            SessionView::Ended(Outcome::Recorded { score_id, map_set_id }),
            ActionView::Stop(Outcome::Recorded { score_id, map_set_id }),
        ),
        ProgressView::Failed => (
            SessionView::Ended(Outcome::StoreFailed),
            ActionView::Stop(Outcome::StoreFailed),
        ),
    }
}

/// The session after `event`, and the action that it answers with.
///
/// - Ended: nothing changes, and the answer is to stop.
/// - Listening: a text frame is read and classified, see [`heard`]; a close
///   frame or the end of the stream ends the session as closed; a
///   connection error ends it as failed; every other frame, and a store
///   reply that nobody asked for, is passed over.
/// - Recording: a store reply moves the recorder on; any other event means
///   that the request was not answered, and fails the attempt.
pub open spec fn step_spec(session: SessionView, event: Event) -> (SessionView, ActionView) {
    match session {
        SessionView::Ended(outcome) => (SessionView::Ended(outcome), ActionView::Stop(outcome)),
        SessionView::Listening => match event {
            Event::Frame(Frame::Text(text)) => heard(snapshot_of(text@)),
            Event::Frame(Frame::Close) | Event::StreamEnded => (
                SessionView::Ended(Outcome::Closed),
                ActionView::Stop(Outcome::Closed),
            ),
            Event::ConnectionError => (
                SessionView::Ended(Outcome::ConnectionError),
                ActionView::Stop(Outcome::ConnectionError),
            ),
            _ => (SessionView::Listening, ActionView::Receive),
        },
        SessionView::Recording(recorder) => match event {
            Event::Store(reply) => progressed(advance(recorder, reply)),
            _ => progressed(after_failure(recorder)),
        },
    }
}

/// The views of a session and an action.
pub open spec fn pair_view(pair: (Session, Action)) -> (SessionView, ActionView) {
    (pair.0@, pair.1@)
}

impl Session {
    /// A session that has just begun. Its first action is
    /// [`Action::Receive`].
    pub fn new() -> (session: Session)
        ensures
            session@ == SessionView::Listening,
    {
        Session::Listening
    }

    /// Whether the session is over.
    pub fn has_ended(&self) -> (ended: bool)
        ensures
            ended == (self@ is Ended),
    {
        match self {
            Session::Ended(_) => true,
            _ => false,
        }
    }

    /// Takes what a text frame read as, in a listening session.
    pub fn hear(snapshot: Option<Snapshot>) -> (next: (Session, Action))
        ensures
            pair_view(next) == heard(snapshot_view(snapshot)),
    {
        match snapshot {
            Some(s) => match completed_play(&s) {
                Ok(Some(play)) => {
                    let recorder = Recorder::begin(play);
                    let request = recorder.request();
                    (Session::Recording(recorder), Action::Ask(request))
                },
                _ => (Session::Listening, Action::Receive),
            },
            None => (Session::Listening, Action::Receive),
        }
    }

    fn progress(progress: Progress) -> (next: (Session, Action))
        ensures
            pair_view(next) == progressed(progress@),
    {
        match progress {
            Progress::Ask(recorder) => {
                let request = recorder.request();
                (Session::Recording(recorder), Action::Ask(request))
            },
            Progress::Recorded { score_id, map_set_id } => {
                let outcome = Outcome::Recorded { score_id, map_set_id };
                (Session::Ended(outcome), Action::Stop(outcome))
            },
            Progress::Failed => (
                Session::Ended(Outcome::StoreFailed),
                Action::Stop(Outcome::StoreFailed),
            ),
        }
    }

    /// Takes the event that followed the last action and answers with the
    /// next action.
    pub fn step(self, event: Event) -> (next: (Session, Action))
        ensures
            pair_view(next) == step_spec(self@, event),
    {
        match self {
            Session::Ended(outcome) => (Session::Ended(outcome), Action::Stop(outcome)),
            Session::Listening => match event {
                Event::Frame(Frame::Text(text)) => Session::hear(read_snapshot(text.as_str())),
                Event::Frame(Frame::Close) | Event::StreamEnded => (
                    Session::Ended(Outcome::Closed),
                    Action::Stop(Outcome::Closed),
                ),
                Event::ConnectionError => (
                    Session::Ended(Outcome::ConnectionError),
                    Action::Stop(Outcome::ConnectionError),
                ),
                _ => (Session::Listening, Action::Receive),
            },
            Session::Recording(recorder) => match event {
                Event::Store(reply) => Session::progress(recorder.step(reply)),
                _ => Session::progress(recorder.step(StoreReply::Failed)),
            },
        }
    }
}

} // verus!
