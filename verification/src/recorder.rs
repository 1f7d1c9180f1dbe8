//! Recording one concluded play: resolve its map, then insert its score.
//!
//! The recorder never touches the store. It says what to ask next, takes
//! the store's reply, and moves on. One attempt is: find the map by title
//! and version; insert the map if there is none; insert the score under
//! the map's key. An attempt that fails at any point is started over once;
//! a second failure ends the recording.

use vstd::prelude::*;
use crate::classifier::{PlayResult, PlayResultView};
use crate::store::{map_of_play, NewMapSet, StoreReply, StoreRequest, StoreRequestView};

verus! {

/// How far an attempt has come.
#[derive(Clone, Copy, Debug, PartialEq, Eq, Structural)]
pub enum Phase {
    /// The map is being looked up.
    Resolving,
    /// The map was not found and is being inserted.
    Creating,
    /// The map has this key and the score is being inserted.
    Inserting { map_set_id: i32 },
}

/// A recording under way: the play, the phase of the current attempt, and
/// whether this is the second attempt.
#[derive(Clone, Debug, PartialEq, Eq)]
pub struct Recorder {
    /// The play to record.
    pub play: PlayResult,
    /// The phase that the current attempt is in.
    pub phase: Phase,
    /// Whether an attempt has failed already.
    pub retried: bool,
}

/// The mathematical content of a [`Recorder`].
pub ghost struct RecorderView {
    pub play: PlayResultView,
    pub phase: Phase,
    pub retried: bool,
}

impl View for Recorder {
    type V = RecorderView;

    open spec fn view(&self) -> RecorderView {
        RecorderView { play: self.play@, phase: self.phase, retried: self.retried }
    }
}

/// Where a recording stands after a reply.
#[derive(Clone, Debug, PartialEq, Eq)]
pub enum Progress {
    /// The recording goes on: ask the store what this recorder requests.
    Ask(Recorder),
    /// The score is in the store.
    Recorded { score_id: i32, map_set_id: i32 },
    /// Both attempts failed; nothing was recorded.
    Failed,
}

/// The mathematical content of a [`Progress`].
pub ghost enum ProgressView {
    Ask(RecorderView),
    Recorded { score_id: i32, map_set_id: i32 },
    Failed,
}

impl View for Progress {
    type V = ProgressView;

    open spec fn view(&self) -> ProgressView {
        match *self {
            Progress::Ask(recorder) => ProgressView::Ask(recorder@),
            Progress::Recorded { score_id, map_set_id } => ProgressView::Recorded {
                score_id,
                map_set_id,
            },
            Progress::Failed => ProgressView::Failed,
        }
    }
}

/// The recorder at the start of its first attempt.
pub open spec fn begun(play: PlayResultView) -> RecorderView {
    RecorderView { play, phase: Phase::Resolving, retried: false }
}

/// What `recorder` asks of the store in its phase.
pub open spec fn request_of(recorder: RecorderView) -> StoreRequestView {
    match recorder.phase {
        Phase::Resolving => StoreRequestView::FindMap {
            title: recorder.play.title,
            version: recorder.play.version,
        },
        Phase::Creating => StoreRequestView::CreateMap(map_of_play(recorder.play)),
        Phase::Inserting { map_set_id } => StoreRequestView::CreateScore {
            accuracy: recorder.play.accuracy,
            unstable_rate: recorder.play.unstable_rate,
            map_set_id,
        },
    }
}

/// Where `recorder` stands after an attempt has failed: at the start of
/// the second attempt, or at the end if this was the second.
pub open spec fn after_failure(recorder: RecorderView) -> ProgressView {
    if recorder.retried {
        ProgressView::Failed
    } else {
        ProgressView::Ask(
            RecorderView { play: recorder.play, phase: Phase::Resolving, retried: true },
        )
    }
}

/// Where `recorder` stands after `reply`.
///
/// A map key answers a lookup or a map insert, and the score insert
/// follows under that key. "No such map" answers a lookup, and the map
/// insert follows. A score key answers the score insert, and the
/// recording is done. `Failed`, and any reply that does not answer what was
/// asked, fails the attempt.
pub open spec fn advance(recorder: RecorderView, reply: StoreReply) -> ProgressView {
    match (recorder.phase, reply) {
        (Phase::Resolving, StoreReply::MapId(id)) | (Phase::Creating, StoreReply::MapId(id)) => {
            ProgressView::Ask(
                RecorderView {
                    play: recorder.play,
                    phase: Phase::Inserting { map_set_id: id },
                    retried: recorder.retried,
                },
            )
        },
        (Phase::Resolving, StoreReply::NoSuchMap) => ProgressView::Ask(
            RecorderView { play: recorder.play, phase: Phase::Creating, retried: recorder.retried },
        ),
        (Phase::Inserting { map_set_id }, StoreReply::ScoreId(id)) => ProgressView::Recorded {
            score_id: id,
            map_set_id,
        },
        _ => after_failure(recorder),
    }
}

impl Recorder {
    /// Starts recording `play`: the first attempt, at the map lookup.
    pub fn begin(play: PlayResult) -> (recorder: Recorder)
        ensures
            recorder@ == begun(play@),
    {
        Recorder { play, phase: Phase::Resolving, retried: false }
    }

    /// What to ask of the store now.
    pub fn request(&self) -> (request: StoreRequest)
        ensures
            request@ == request_of(self@),
    {
        match self.phase {
            Phase::Resolving => StoreRequest::FindMap {
                title: self.play.title.clone(),
                version: self.play.version.clone(),
            },
            Phase::Creating => StoreRequest::CreateMap(NewMapSet::for_play(&self.play)),
            Phase::Inserting { map_set_id } => StoreRequest::CreateScore {
                accuracy: self.play.accuracy,
                unstable_rate: self.play.unstable_rate,
                map_set_id,
            },
        }
    }

    fn fail(self) -> (progress: Progress)
        ensures
            progress@ == after_failure(self@),
    {
        if self.retried {
            Progress::Failed
        } else {
            Progress::Ask(Recorder { play: self.play, phase: Phase::Resolving, retried: true })
        }
    }

    /// Takes the store's reply to the last request.
    pub fn step(self, reply: StoreReply) -> (progress: Progress)
        ensures
            progress@ == advance(self@, reply),
    {
        match self.phase {
            Phase::Resolving => match reply {
                StoreReply::MapId(id) => Progress::Ask(
                    Recorder {
                        play: self.play,
                        phase: Phase::Inserting { map_set_id: id },
                        retried: self.retried,
                    },
                ),
                StoreReply::NoSuchMap => Progress::Ask(
                    Recorder { play: self.play, phase: Phase::Creating, retried: self.retried },
                ),
                _ => self.fail(),
            },
            Phase::Creating => match reply {
                StoreReply::MapId(id) => Progress::Ask(
                    Recorder {
                        play: self.play,
                        phase: Phase::Inserting { map_set_id: id },
                        retried: self.retried,
                    },
                ),
                _ => self.fail(),
            },
            Phase::Inserting { map_set_id } => match reply {
                StoreReply::ScoreId(id) => Progress::Recorded { score_id: id, map_set_id },
                _ => self.fail(),
            },
        }
    }
}

/// A score goes under the key that the store reported for its map: the key
/// of the map found, with no map insert in between, or the key of the map
/// just inserted.
pub proof fn score_goes_under_reported_map(recorder: RecorderView, id: i32)
    requires
        recorder.phase == Phase::Resolving || recorder.phase == Phase::Creating,
    ensures
        advance(recorder, StoreReply::MapId(id)) == ProgressView::Ask(
            RecorderView {
                play: recorder.play,
                phase: Phase::Inserting { map_set_id: id },
                retried: recorder.retried,
            },
        ),
        request_of(
            RecorderView {
                play: recorder.play,
                phase: Phase::Inserting { map_set_id: id },
                retried: recorder.retried,
            },
        ) == (StoreRequestView::CreateScore {
            accuracy: recorder.play.accuracy,
            unstable_rate: recorder.play.unstable_rate,
            map_set_id: id,
        }),
{
}

/// A map is inserted only after the store has said that it has none with
/// the play's title and version, and the map inserted carries both.
pub proof fn map_created_only_when_missing(
    recorder: RecorderView,
    reply: StoreReply,
    next: RecorderView,
)
    requires
        advance(recorder, reply) == ProgressView::Ask(next),
        next.phase == Phase::Creating,
    ensures
        recorder.phase == Phase::Resolving,
        reply == StoreReply::NoSuchMap,
        request_of(next) == StoreRequestView::CreateMap(map_of_play(recorder.play)),
{
}

} // verus!
