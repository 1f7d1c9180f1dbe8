//! The date text that a score carries: `YYYY-MM-DD HH:MM:SS`.

use vstd::prelude::*;
use vstd::string::StringSliceAdditionalSpecFns;
use vstd::utf8::is_ascii_chars_encode_utf8;

verus! {

/// Number of characters in a date text.
pub const TIMESTAMP_LEN: usize = 19;

/// Whether `c` may stand at position `i` of a date text: a hyphen after
/// the year and the month, a space after the day, a colon after the hour
/// and the minute, a decimal digit everywhere else.
pub open spec fn fits_slot(i: int, c: char) -> bool {
    if i == 4 || i == 7 {
        c == '-'
    } else if i == 10 {
        c == ' '
    } else if i == 13 || i == 16 {
        c == ':'
    } else {
        '0' <= c <= '9'
    }
}

/// Whether `text` has the shape `YYYY-MM-DD HH:MM:SS`: nineteen
/// characters, each fit for its position.
pub open spec fn is_timestamp(text: Seq<char>) -> bool {
    &&& text.len() == TIMESTAMP_LEN
    &&& forall|i: int| 0 <= i < text.len() ==> fits_slot(i, #[trigger] text[i])
}

fn byte_fits_slot(i: usize, byte: u8) -> (fits: bool)
    requires
        byte < 128,
    ensures
        fits == fits_slot(i as int, byte as char),
{
    if i == 4 || i == 7 {
        byte == 45
    } else if i == 10 {
        byte == 32
    } else if i == 13 || i == 16 {
        byte == 58
    } else {
        48 <= byte && byte <= 57
    }
}

/// Checks that `text` has the shape `YYYY-MM-DD HH:MM:SS`.
pub fn check_timestamp(text: &str) -> (valid: bool)
    ensures
        valid == is_timestamp(text@),
{
    if !text.is_ascii() {
        return false;
    }
    proof {
        is_ascii_chars_encode_utf8(text@);
    }
    let bytes = text.as_bytes();
    if bytes.len() != TIMESTAMP_LEN {
        return false;
    }
    let mut i: usize = 0;
    while i < TIMESTAMP_LEN
        invariant
            i <= TIMESTAMP_LEN,
            bytes@.len() == TIMESTAMP_LEN,
            text@.len() == TIMESTAMP_LEN,
            forall|k: int| 0 <= k < text@.len() ==> bytes@[k] == (#[trigger] text@[k]) as u8,
            forall|k: int| 0 <= k < text@.len() ==> '\0' <= #[trigger] text@[k] <= '\u{7f}',
            forall|k: int| 0 <= k < i ==> fits_slot(k, #[trigger] text@[k]),
        decreases TIMESTAMP_LEN - i,
    {
        let byte = bytes[i];
        assert(byte == text@[i as int] as u8);
        assert(byte as char == text@[i as int]);
        if !byte_fits_slot(i, byte) {
            return false;
        }
        i += 1;
    }
    true
}

/// The pattern, in `chrono`'s notation, that renders a moment as a date
/// text: year, month, day, hour, minute, second.
pub const TIMESTAMP_PATTERN: &'static str = "%Y-%m-%d %H:%M:%S";

/// The local wall-clock time, rendered by `pattern`.
///
/// The clock is read with `SystemTime::now` and `duration_since` the Unix
/// epoch; `chrono` makes the moment with `DateTime::from_timestamp`, moves
/// it to local time with `with_timezone`, and renders it with `format` and
/// `write_to`. `None` comes back where the clock reads before 1970, where
/// `chrono` cannot hold the moment, and where it cannot render `pattern`.
///
/// Nothing is claimed of the text: it depends on the clock and the time
/// zone of the machine, and a year beyond four digits is rendered longer.
#[verifier::external_body]
pub(crate) fn local_time_text(pattern: &str) -> (text: Option<String>) {
    let elapsed = std::time::SystemTime::now().duration_since(std::time::UNIX_EPOCH).ok()?;
    let seconds = i64::try_from(elapsed.as_secs()).ok()?;
    let moment = chrono::DateTime::from_timestamp(seconds, elapsed.subsec_nanos())?;
    let mut text = String::new();
    moment.with_timezone(&chrono::Local).format(pattern).write_to(&mut text).ok()?;
    Some(text)
}

} // verus!
