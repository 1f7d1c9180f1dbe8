//! The rows that the library asks the store to write, and the requests and
//! replies that pass between the two.

use vstd::prelude::*;
use crate::classifier::{PlayResult, PlayResultView};
use crate::number::Number;
use crate::timestamp::{check_timestamp, is_timestamp, local_time_text, TIMESTAMP_PATTERN};

verus! {

/// A map row that has no key yet.
#[derive(Clone, Debug, PartialEq, Eq)]
pub struct NewMapSet {
    /// Title of the map.
    pub title: String,
    /// Difficulty label of the map.
    pub version: String,
    /// Tempo in beats per minute, where it is known.
    pub bpm: Option<i32>,
}

/// The mathematical content of a [`NewMapSet`].
pub ghost struct NewMapSetView {
    pub title: Seq<char>,
    pub version: Seq<char>,
    pub bpm: Option<i32>,
}

impl View for NewMapSet {
    type V = NewMapSetView;

    open spec fn view(&self) -> NewMapSetView {
        NewMapSetView { title: self.title@, version: self.version@, bpm: self.bpm }
    }
}

/// The map row that stands for the map of `play`: its title and version,
/// and no tempo, which the telemetry does not give.
pub open spec fn map_of_play(play: PlayResultView) -> NewMapSetView {
    NewMapSetView { title: play.title, version: play.version, bpm: None }
}

impl NewMapSet {
    /// The map row for the map that `play` was played on.
    pub fn for_play(play: &PlayResult) -> (row: NewMapSet)
        ensures
            row@ == map_of_play(play@),
    {
        NewMapSet { title: play.title.clone(), version: play.version.clone(), bpm: None }
    }
}

/// A score row that has no key yet.
#[derive(Clone, Debug, PartialEq, Eq)]
pub struct NewScoreSet {
    /// Accuracy of the play.
    pub accuracy: Number,
    /// Unstable rate of the play.
    pub unstable_rate: Number,
    /// When the row was made, as `YYYY-MM-DD HH:MM:SS` in local time.
    pub date: String,
    /// Key of the map played, where one is known.
    pub map_set_id: Option<i32>,
}

/// The mathematical content of a [`NewScoreSet`].
pub ghost struct NewScoreSetView {
    pub accuracy: Number,
    pub unstable_rate: Number,
    pub date: Seq<char>,
    pub map_set_id: Option<i32>,
}

impl View for NewScoreSet {
    type V = NewScoreSetView;

    open spec fn view(&self) -> NewScoreSetView {
        NewScoreSetView {
            accuracy: self.accuracy,
            unstable_rate: self.unstable_rate,
            date: self.date@,
            map_set_id: self.map_set_id,
        }
    }
}

/// The score row made at the moment that `date` names, if `date` is a
/// date text.
pub open spec fn score_dated(
    accuracy: Number,
    unstable_rate: Number,
    map_set_id: Option<i32>,
    date: Seq<char>,
) -> Option<NewScoreSetView> {
    if is_timestamp(date) {
        Some(NewScoreSetView { accuracy, unstable_rate, date, map_set_id })
    } else {
        None
    }
}

/// The view of an optional score row.
pub open spec fn score_view(row: Option<NewScoreSet>) -> Option<NewScoreSetView> {
    match row {
        Some(r) => Some(r@),
        None => None,
    }
}

impl NewScoreSet {
    /// Whether the row is well formed: its date is a date text.
    pub open spec fn wf(&self) -> bool {
        is_timestamp(self.date@)
    }

    /// Makes the score row dated `date`. A `date` that is no date text
    /// gives `None`.
    pub fn dated(
        accuracy: Number,
        unstable_rate: Number,
        map_set_id: Option<i32>,
        date: String,
    ) -> (row: Option<NewScoreSet>)
        ensures
            score_view(row) == score_dated(accuracy, unstable_rate, map_set_id, date@),
            row matches Some(r) ==> r.wf(),
    {
        if check_timestamp(date.as_str()) {
            Some(NewScoreSet { accuracy, unstable_rate, date, map_set_id })
        } else {
            None
        }
    }

    /// Makes the score row dated now, by the local wall clock.
    ///
    /// The row holds the three values given and a well-formed date. `None`
    /// comes back only where the clock gives no time, or gives one that
    /// does not render as a date text, as with a year beyond 9999.
    pub fn now(accuracy: Number, unstable_rate: Number, map_set_id: Option<i32>) -> (row: Option<
        NewScoreSet,
    >)
        ensures
            row matches Some(r) ==> {
                &&& r.accuracy == accuracy
                &&& r.unstable_rate == unstable_rate
                &&& r.map_set_id == map_set_id
                &&& r.wf()
            },
    {
        match local_time_text(TIMESTAMP_PATTERN) {
            Some(date) => NewScoreSet::dated(accuracy, unstable_rate, map_set_id, date),
            None => None,
        }
    }
}

/// What the library asks of the store.
#[derive(Clone, Debug, PartialEq, Eq)]
pub enum StoreRequest {
    /// Find the map with this title and version.
    FindMap { title: String, version: String },
    /// Insert this map and report its key.
    CreateMap(NewMapSet),
    /// Insert a score with these values, dated at the write, and report
    /// its key.
    CreateScore { accuracy: Number, unstable_rate: Number, map_set_id: i32 },
}

/// The mathematical content of a [`StoreRequest`].
pub ghost enum StoreRequestView {
    FindMap { title: Seq<char>, version: Seq<char> },
    CreateMap(NewMapSetView),
    CreateScore { accuracy: Number, unstable_rate: Number, map_set_id: i32 },
}

impl View for StoreRequest {
    type V = StoreRequestView;

    open spec fn view(&self) -> StoreRequestView {
        match *self {
            StoreRequest::FindMap { title, version } => StoreRequestView::FindMap {
                title: title@,
                version: version@,
            },
            StoreRequest::CreateMap(row) => StoreRequestView::CreateMap(row@),
            StoreRequest::CreateScore {
                accuracy,
                unstable_rate,
                map_set_id,
            } => StoreRequestView::CreateScore { accuracy, unstable_rate, map_set_id },
        }
    }
}

/// What the store answers.
///
/// `Failed` says that the store could not do what was asked and wrote
/// nothing.
#[derive(Clone, Copy, Debug, PartialEq, Eq, Structural)]
pub enum StoreReply {
    /// The map asked for, found or just inserted, has this key.
    MapId(i32),
    /// No map has the title and version asked for.
    NoSuchMap,
    /// The score was inserted under this key.
    ScoreId(i32),
    /// The store failed.
    Failed,
}

} // verus!
