//! Deciding from one snapshot whether the play has concluded.

use vstd::prelude::*;
use crate::number::Number;
use crate::snapshot::{Snapshot, SnapshotView};
use crate::state::{state_of, State};

verus! {

/// A field that a decision needed and the snapshot does not hold.
#[derive(Clone, Copy, Debug, PartialEq, Eq, Structural)]
pub enum MissingField {
    /// `state.name`
    StateName,
    /// `data.play.healthBar.normal`
    Health,
    /// `data.resultScreen.accuracy`
    Accuracy,
    /// `play.unstableRate`
    UnstableRate,
    /// `beatmap.title`
    Title,
    /// `beatmap.version`
    Version,
}

/// What is kept of a concluded play.
///
/// Accuracy and unstable rate are kept as the telemetry reports them: the
/// library neither rescales nor bounds them, so a store holds fractions
/// or percentages according to what the server sends.
#[derive(Clone, Debug, PartialEq, Eq)]
pub struct PlayResult {
    /// Accuracy, as the telemetry reports it.
    pub accuracy: Number,
    /// Unstable rate, as the telemetry reports it.
    pub unstable_rate: Number,
    /// Title of the map played.
    pub title: String,
    /// Difficulty label of the map played.
    pub version: String,
}

/// The mathematical content of a [`PlayResult`].
pub ghost struct PlayResultView {
    pub accuracy: Number,
    pub unstable_rate: Number,
    pub title: Seq<char>,
    pub version: Seq<char>,
}

impl View for PlayResult {
    type V = PlayResultView;

    open spec fn view(&self) -> PlayResultView {
        PlayResultView {
            accuracy: self.accuracy,
            unstable_rate: self.unstable_rate,
            title: self.title@,
            version: self.version@,
        }
    }
}

/// Whether the play in `snapshot` has concluded.
///
/// On the result screen it has. During a play it has exactly when health
/// equals zero, which is how a failed play shows. On any other screen it
/// has not. The decision needs `state.name`, and during a play the health
/// value; without them there is none.
pub open spec fn concluded(snapshot: SnapshotView) -> Result<bool, MissingField> {
    match snapshot.state_name {
        None => Err(MissingField::StateName),
        Some(name) => match state_of(name) {
            State::Play => match snapshot.health {
                None => Err(MissingField::Health),
                Some(health) => Ok(health.is_zero()),
            },
            State::ResultScreen => Ok(true),
            State::Other => Ok(false),
        },
    }
}

/// The fields to persist from a snapshot whose play has concluded: the
/// first of accuracy, unstable rate, title and version that is absent is
/// the error.
pub open spec fn result_fields(snapshot: SnapshotView) -> Result<PlayResultView, MissingField> {
    if snapshot.accuracy.is_none() {
        Err(MissingField::Accuracy)
    } else if snapshot.unstable_rate.is_none() {
        Err(MissingField::UnstableRate)
    } else if snapshot.title.is_none() {
        Err(MissingField::Title)
    } else if snapshot.version.is_none() {
        Err(MissingField::Version)
    } else {
        Ok(
            PlayResultView {
                accuracy: snapshot.accuracy.unwrap(),
                unstable_rate: snapshot.unstable_rate.unwrap(),
                title: snapshot.title.unwrap(),
                version: snapshot.version.unwrap(),
            },
        )
    }
}

/// The concluded play that `snapshot` reports, if it reports one.
///
/// `Ok(None)` where the play has not concluded; `Ok(Some(..))` with the
/// fields to persist where it has; `Err(..)` where the snapshot lacks a
/// field that the decision, or the concluded play, needs.
pub open spec fn completed(snapshot: SnapshotView) -> Result<Option<PlayResultView>, MissingField> {
    match concluded(snapshot) {
        Err(missing) => Err(missing),
        Ok(false) => Ok(None),
        Ok(true) => match result_fields(snapshot) {
            Err(missing) => Err(missing),
            Ok(play) => Ok(Some(play)),
        },
    }
}

/// The view of what [`completed_play`] returns.
pub open spec fn completed_view(
    outcome: Result<Option<PlayResult>, MissingField>,
) -> Result<Option<PlayResultView>, MissingField> {
    match outcome {
        Ok(Some(play)) => Ok(Some(play@)),
        Ok(None) => Ok(None),
        Err(missing) => Err(missing),
    }
}

/// Decides whether the play in `snapshot` has concluded.
pub fn is_finished(snapshot: &Snapshot) -> (finished: Result<bool, MissingField>)
    ensures
        finished == concluded(snapshot@),
{
    match &snapshot.state_name {
        None => Err(MissingField::StateName),
        Some(name) => match State::from_str(name.as_str()) {
            State::Play => match snapshot.health {
                None => Err(MissingField::Health),
                Some(health) => Ok(health.equals_zero()),
            },
            State::ResultScreen => Ok(true),
            State::Other => Ok(false),
        },
    }
}

/// Extracts the concluded play from `snapshot`, if its play has concluded.
pub fn completed_play(snapshot: &Snapshot) -> (outcome: Result<Option<PlayResult>, MissingField>)
    ensures
        completed_view(outcome) == completed(snapshot@),
{
    match is_finished(snapshot) {
        Err(missing) => Err(missing),
        Ok(false) => Ok(None),
        Ok(true) => {
            let accuracy = match snapshot.accuracy {
                Some(number) => number,
                None => { return Err(MissingField::Accuracy); },
            };
            let unstable_rate = match snapshot.unstable_rate {
                Some(number) => number,
                None => { return Err(MissingField::UnstableRate); },
            };
            let title = match &snapshot.title {
                Some(text) => text.clone(),
                None => { return Err(MissingField::Title); },
            };
            let version = match &snapshot.version {
                Some(text) => text.clone(),
                None => { return Err(MissingField::Version); },
            };
            Ok(Some(PlayResult { accuracy, unstable_rate, title, version }))
        },
    }
}

/// On the result screen the play has concluded, whatever else the
/// snapshot holds.
pub proof fn result_screen_concludes(snapshot: SnapshotView)
    requires
        snapshot.state_name == Some("resultScreen"@),
    ensures
        concluded(snapshot) == Ok::<bool, MissingField>(true),
{
    reveal_strlit("play");
    reveal_strlit("resultScreen");
    assert("play"@.len() != "resultScreen"@.len());
}

/// During a play with a health value, the play has concluded exactly when
/// that value equals zero.
pub proof fn play_concludes_at_zero_health(snapshot: SnapshotView, health: Number)
    requires
        snapshot.state_name == Some("play"@),
        snapshot.health == Some(health),
    ensures
        concluded(snapshot) == Ok::<bool, MissingField>(health.is_zero()),
        health.bits == 0 ==> concluded(snapshot) == Ok::<bool, MissingField>(true),
        !health.is_zero() ==> concluded(snapshot) == Ok::<bool, MissingField>(false),
{
}

/// On a screen that is neither a play nor the result screen, the play has
/// not concluded.
pub proof fn other_screen_does_not_conclude(snapshot: SnapshotView, name: Seq<char>)
    requires
        snapshot.state_name == Some(name),
        name != "play"@,
        name != "resultScreen"@,
    ensures
        concluded(snapshot) == Ok::<bool, MissingField>(false),
{
}

} // verus!
