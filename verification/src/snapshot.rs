//! One telemetry message, reduced to the fields the library reads.

use vstd::prelude::*;
use serde_json::Value;
use crate::json::{json_parse, json_value, json_view, Json};
use crate::json::{member, number_of, parse_document, text_of};
use crate::number::Number;

verus! {

/// What one telemetry message says, as far as the library reads it.
///
/// Each field is `None` where the message has nothing at its path, or has
/// something of another JSON type there.
#[derive(Clone, Debug, PartialEq, Eq)]
pub struct Snapshot {
    /// The string at `state.name`.
    pub state_name: Option<String>,
    /// The number at `data.play.healthBar.normal`.
    pub health: Option<Number>,
    /// The number at `data.resultScreen.accuracy`.
    pub accuracy: Option<Number>,
    /// The number at `play.unstableRate`, read from the top-level `play`
    /// object.
    pub unstable_rate: Option<Number>,
    /// The string at `beatmap.title`.
    pub title: Option<String>,
    /// The string at `beatmap.version`.
    pub version: Option<String>,
}

/// The mathematical content of a [`Snapshot`].
pub ghost struct SnapshotView {
    pub state_name: Option<Seq<char>>,
    pub health: Option<Number>,
    pub accuracy: Option<Number>,
    pub unstable_rate: Option<Number>,
    pub title: Option<Seq<char>>,
    pub version: Option<Seq<char>>,
}

/// The characters of an optional string.
pub open spec fn text_view(text: Option<String>) -> Option<Seq<char>> {
    match text {
        Some(s) => Some(s@),
        None => None,
    }
}

impl View for Snapshot {
    type V = SnapshotView;

    open spec fn view(&self) -> SnapshotView {
        SnapshotView {
            state_name: text_view(self.state_name),
            health: self.health,
            accuracy: self.accuracy,
            unstable_rate: self.unstable_rate,
            title: text_view(self.title),
            version: text_view(self.version),
        }
    }
}

/// The member under `key` of a value that was itself looked up.
pub open spec fn within(outer: Option<Json>, key: Seq<char>) -> Option<Json> {
    match outer {
        Some(json) => json.member(key),
        None => None,
    }
}

/// The characters of a looked-up value, where it is a string.
pub open spec fn text_at(found: Option<Json>) -> Option<Seq<char>> {
    match found {
        Some(json) => json.text(),
        None => None,
    }
}

/// The number that a looked-up value holds, where it is a number.
pub open spec fn number_at(found: Option<Json>) -> Option<Number> {
    match found {
        Some(json) => match json.number() {
            Some(bits) => Some(Number { bits }),
            None => None,
        },
        None => None,
    }
}

/// The snapshot that the document `doc` holds.
pub open spec fn snapshot_in(doc: Json) -> SnapshotView {
    let state = doc.member("state"@);
    let data = doc.member("data"@);
    let play = doc.member("play"@);
    let beatmap = doc.member("beatmap"@);
    SnapshotView {
        state_name: text_at(within(state, "name"@)),
        health: number_at(within(within(within(data, "play"@), "healthBar"@), "normal"@)),
        accuracy: number_at(within(within(data, "resultScreen"@), "accuracy"@)),
        unstable_rate: number_at(within(play, "unstableRate"@)),
        title: text_at(within(beatmap, "title"@)),
        version: text_at(within(beatmap, "version"@)),
    }
}

/// The snapshot that the frame text `text` holds, where it is a JSON
/// document.
pub open spec fn snapshot_of(text: Seq<char>) -> Option<SnapshotView> {
    match json_parse(text) {
        Some(doc) => Some(snapshot_in(doc)),
        None => None,
    }
}

fn get_within<'a>(outer: Option<&'a Value>, key: &str) -> (found: Option<&'a Value>)
    ensures
        json_view(found) == within(json_view(outer), key@),
{
    match outer {
        Some(value) => member(value, key),
        None => None,
    }
}

fn get_text(found: Option<&Value>) -> (text: Option<String>)
    ensures
        text_view(text) == text_at(json_view(found)),
{
    match found {
        Some(value) => text_of(value),
        None => None,
    }
}

fn get_number(found: Option<&Value>) -> (number: Option<Number>)
    ensures
        number == number_at(json_view(found)),
{
    match found {
        Some(value) => match number_of(value) {
            Some(bits) => Some(Number { bits }),
            None => None,
        },
        None => None,
    }
}

/// Reads the snapshot out of a parsed document: each field from its path,
/// `None` where the path leads nowhere or to a value of another JSON type.
pub fn snapshot_from(doc: &Value) -> (snapshot: Snapshot)
    ensures
        snapshot@ == snapshot_in(json_value(*doc)),
{
    let state = member(doc, "state");
    let data = member(doc, "data");
    let play = member(doc, "play");
    let beatmap = member(doc, "beatmap");
    Snapshot {
        state_name: get_text(get_within(state, "name")),
        health: get_number(
            get_within(get_within(get_within(data, "play"), "healthBar"), "normal"),
        ),
        accuracy: get_number(get_within(get_within(data, "resultScreen"), "accuracy")),
        unstable_rate: get_number(get_within(play, "unstableRate")),
        title: get_text(get_within(beatmap, "title")),
        version: get_text(get_within(beatmap, "version")),
    }
}

/// The view of an optional snapshot.
pub open spec fn snapshot_view(snapshot: Option<Snapshot>) -> Option<SnapshotView> {
    match snapshot {
        Some(s) => Some(s@),
        None => None,
    }
}

/// Reads the text of one frame.
///
/// Text that is not a JSON document gives `None`. A document gives the
/// snapshot of the fields found in it; a field that is absent, or whose
/// value has the wrong JSON type, is `None` in the snapshot.
pub fn read_snapshot(text: &str) -> (snapshot: Option<Snapshot>)
    ensures
        snapshot_view(snapshot) == snapshot_of(text@),
{
    match parse_document(text) {
        Some(doc) => Some(snapshot_from(&doc)),
        None => None,
    }
}

} // verus!
