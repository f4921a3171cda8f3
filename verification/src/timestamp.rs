//! Points in time as the registry writes them, and the two ways to show one.

use crate::document::{as_str, json_tree, JsonTree};
use crate::text::{pad, padded};
use vstd::prelude::*;
use vstd::string::*;

verus! {

/// The first second that the report shows, counted from the start of 1970
/// in UTC: the start of the second day of the year 262144 before our era.
/// The calendar behind the report starts a day earlier, and the day between
/// leaves room for the local time of every time zone.
pub const FIRST_SECOND: i64 = -8_334_601_142_400;

/// The last second that the report shows, counted from the start of 1970 in
/// UTC: the end of the last day but one of the year 262142. The calendar
/// behind the report ends a day later.
pub const LAST_SECOND: i64 = 8_210_266_790_399;

/// The seconds of a day, within which the local time of every time zone
/// lies from UTC.
pub const DAY: i64 = 86_400;

/// A point in time, ready to be shown: as a local date and time, and as its
/// distance from now in words. A timestamp that was read from a text or made
/// of a point in time has both texts or neither; one that is written out
/// field by field holds what was written.
pub struct TimeStamp {
    pub absolute: String,
    pub relative: String,
}

/// The two texts of a `TimeStamp`.
pub struct TimeStampView {
    pub absolute: Seq<char>,
    pub relative: Seq<char>,
}

impl View for TimeStamp {
    type V = TimeStampView;

    open spec fn view(&self) -> TimeStampView {
        TimeStampView { absolute: self.absolute@, relative: self.relative@ }
    }
}

impl TimeStampView {
    /// Whether there is nothing to show.
    pub open spec fn blank(self) -> bool {
        self.absolute.len() == 0 && self.relative.len() == 0
    }

    /// Whether both ways of showing have a text.
    pub open spec fn full(self) -> bool {
        self.absolute.len() > 0 && self.relative.len() > 0
    }

    /// The text for one way of showing: the distance from now where
    /// `alternate` is set, the local date and time where it is not.
    pub open spec fn rendering(self, alternate: bool) -> Seq<char> {
        if alternate {
            self.relative
        } else {
            self.absolute
        }
    }
}

/// The point in time that a text names, as whole seconds since the start of
/// 1970 in UTC and the nanoseconds past them, where it names one.
pub uninterp spec fn parsed_instant(raw: Seq<char>) -> Option<(i64, u32)>;

/// Whether `nanos` nanoseconds can follow the second `secs`: less than a
/// whole second always can, and up to another second where `secs` is the
/// last of its minute, which is how a leap second is written.
pub open spec fn within_second(secs: i64, nanos: u32) -> bool {
    nanos < 1_000_000_000 || (nanos < 2_000_000_000 && (secs as int) % 60 == 59)
}

/// Whether a point in time is one that the report shows: it has to lie
/// between the first and the last second that the report shows, and its
/// nanoseconds have to fit its second.
pub open spec fn shown(instant: Option<(i64, u32)>) -> bool {
    instant matches Some(at) && FIRST_SECOND <= at.0 <= LAST_SECOND && within_second(at.0, at.1)
}

/// Whether `offset` seconds can lie between a local time and UTC.
pub open spec fn is_offset(offset: i32) -> bool {
    -DAY < offset < DAY
}

/// Whether a clock can read `secs` seconds and `nanos` nanoseconds since the
/// start of 1970: no time before that, none after the calendar ends, and no
/// leap second.
pub open spec fn is_reading(secs: i64, nanos: u32) -> bool {
    0 <= secs <= LAST_SECOND + DAY && nanos < 1_000_000_000
}

/// The point in time that a JSON value names: the one that its text names
/// where it is a string, and none for every other value.
pub open spec fn instant_held(tree: JsonTree) -> Option<(i64, u32)> {
    if tree is Text {
        parsed_instant(tree.text())
    } else {
        None
    }
}

/// The date and the time of day that a point in time has where local time
/// is `offset` seconds ahead of UTC: year, month and day, a blank, and hour,
/// minute and second, with the fraction of the second where there is one.
pub uninterp spec fn local_text(secs: i64, nanos: u32, offset: i32) -> Seq<char>;

/// How far a point in time lies from the reading of a clock, in words: a
/// rough span of time, said of the past or of the future.
pub uninterp spec fn distance_text(secs: i64, nanos: u32, now_secs: i64, now_nanos: u32) -> Seq<
    char,
>;

impl TimeStampView {
    /// Whether the texts are those of the point in time at `secs` seconds
    /// and `nanos` nanoseconds, seen in some time zone and from some reading
    /// of a clock: its date and time there, and its distance from that
    /// reading.
    pub open spec fn seen_somewhere(self, secs: i64, nanos: u32) -> bool {
        exists|offset: i32, now_secs: i64, now_nanos: u32|
            #![trigger local_text(secs, nanos, offset), distance_text(secs, nanos, now_secs, now_nanos)]
            is_offset(offset) && is_reading(now_secs, now_nanos) && self.absolute == local_text(
                secs,
                nanos,
                offset,
            ) && self.relative == distance_text(secs, nanos, now_secs, now_nanos)
    }

    /// Whether the texts show the point in time `instant`. One that the
    /// report shows has both texts: its date and time in some time zone, and
    /// its distance from some reading of a clock. Which zone and which
    /// reading is for the machine to say. Where there is no point in time,
    /// or one that the report does not show, both texts are empty.
    pub open spec fn renders(self, instant: Option<(i64, u32)>) -> bool {
        match instant {
            Some(at) => if shown(instant) {
                self.full() && self.seen_somewhere(at.0, at.1)
            } else {
                self.blank()
            },
            None => self.blank(),
        }
    }
}

/// The parser of `chrono::DateTime<chrono::Local>`, then `timestamp` and
/// `timestamp_subsec_nanos`. Claimed: whether a text is read as a point in
/// time, and which point that is, depends on the text alone.
#[verifier::external_body]
fn parse_instant(raw: &str) -> (r: Option<(i64, u32)>)
    ensures
        r == parsed_instant(raw@),
{
    match raw.parse::<chrono::DateTime<chrono::Local>>() {
        Ok(at) => Some((at.timestamp(), at.timestamp_subsec_nanos())),
        Err(_) => None,
    }
}

/// `chrono::DateTime::from_timestamp`, `with_timezone` to `chrono::Local`
/// and `local_minus_utc` of its offset. Claimed: for a point in time that
/// the report shows there is an offset, and it lies within a day of UTC
/// either way. Which offset it is depends on the time zone of the machine.
#[verifier::external_body]
fn local_offset(secs: i64, nanos: u32) -> (r: Option<i32>)
    requires
        shown(Some((secs, nanos))),
    ensures
        match r {
            Some(offset) => is_offset(offset),
            None => false,
        },
{
    match chrono::DateTime::from_timestamp(secs, nanos) {
        Some(utc) => Some(utc.with_timezone(&chrono::Local).offset().local_minus_utc()),
        None => None,
    }
}

/// `chrono::Utc::now`, then `timestamp` and `timestamp_subsec_nanos`.
/// Claimed: the reading is of no time before 1970 and of none after the
/// calendar ends, and its nanoseconds are less than a second. What it reads
/// depends on the clock of the machine.
#[verifier::external_body]
fn clock() -> (r: (i64, u32))
    ensures
        is_reading(r.0, r.1),
{
    let now = chrono::Utc::now();
    (now.timestamp(), now.timestamp_subsec_nanos())
}

/// `chrono::DateTime::from_timestamp`, `chrono::FixedOffset::east_opt` and
/// `with_timezone`, then the text of `naive_local`. Claimed: for a point in
/// time that the report shows and an offset within a day there is a text;
/// it depends on the three numbers alone and is never empty. The seconds
/// are bounded because `naive_local` gives up where the local time leaves
/// the calendar.
#[verifier::external_body]
fn local_rendering(secs: i64, nanos: u32, offset: i32) -> (r: Option<String>)
    requires
        shown(Some((secs, nanos))),
        is_offset(offset),
    ensures
        match r {
            Some(text) => text@ == local_text(secs, nanos, offset) && text@.len() > 0,
            None => false,
        },
{
    match (chrono::DateTime::from_timestamp(secs, nanos), chrono::FixedOffset::east_opt(offset)) {
        (Some(utc), Some(east)) => Some(format!("{}", utc.with_timezone(&east).naive_local())),
        _ => None,
    }
}

/// `chrono::DateTime::from_timestamp` for the point in time and for the
/// reading, `signed_duration_since`, and the text of
/// `chrono_humanize::HumanTime`. Claimed: for a point in time that the
/// report shows and a reading that a clock can give there is a text; it
/// depends on the four numbers alone and is never empty.
#[verifier::external_body]
fn distance_rendering(secs: i64, nanos: u32, now_secs: i64, now_nanos: u32) -> (r: Option<String>)
    requires
        shown(Some((secs, nanos))),
        is_reading(now_secs, now_nanos),
    ensures
        match r {
            Some(text) => text@ == distance_text(secs, nanos, now_secs, now_nanos) && text@.len()
                > 0,
            None => false,
        },
{
    let at = chrono::DateTime::from_timestamp(secs, nanos);
    match (at, chrono::DateTime::from_timestamp(now_secs, now_nanos)) {
        (Some(at), Some(now)) => {
            let span = chrono_humanize::HumanTime::from(at.signed_duration_since(now));
            Some(format!("{}", span))
        },
        _ => None,
    }
}

impl TimeStamp {
    /// The timestamp of no point in time.
    pub fn none() -> (out: TimeStamp)
        ensures
            out@ == (TimeStampView { absolute: Seq::empty(), relative: Seq::empty() }),
    {
        TimeStamp { absolute: String::new(), relative: String::new() }
    }

    /// The timestamp of a point in time, as the machine shows it now. One
    /// that the report shows has both of its texts: its date and time in the
    /// time zone of the machine, and its distance from what the machine's
    /// clock reads. Any other counts as none, and so does no point in time:
    /// neither text is there.
    pub fn at(instant: Option<(i64, u32)>) -> (out: TimeStamp)
        ensures
            out@.renders(instant),
    {
        match instant {
            Some((secs, nanos)) => {
                if FIRST_SECOND <= secs && secs <= LAST_SECOND && TimeStamp::fits_second(
                    secs,
                    nanos,
                ) {
                    let now = clock();
                    match local_offset(secs, nanos) {
                        Some(offset) => TimeStamp::seen(secs, nanos, offset, now.0, now.1),
                        None => TimeStamp::none(),
                    }
                } else {
                    TimeStamp::none()
                }
            },
            None => TimeStamp::none(),
        }
    }

    /// The timestamp of a point in time that the report shows, as it is
    /// seen where local time is `offset` seconds ahead of UTC and the clock
    /// reads `now_secs` seconds and `now_nanos` nanoseconds.
    pub fn seen(secs: i64, nanos: u32, offset: i32, now_secs: i64, now_nanos: u32) -> (out:
        TimeStamp)
        requires
            shown(Some((secs, nanos))),
            is_offset(offset),
            is_reading(now_secs, now_nanos),
        ensures
            out@.absolute == local_text(secs, nanos, offset),
            out@.relative == distance_text(secs, nanos, now_secs, now_nanos),
            out@.full(),
    {
        let absolute = local_rendering(secs, nanos, offset);
        let relative = distance_rendering(secs, nanos, now_secs, now_nanos);
        match (absolute, relative) {
            (Some(absolute), Some(relative)) => TimeStamp { absolute, relative },
            _ => TimeStamp::none(),
        }
    }

    /// Whether `nanos` nanoseconds can follow the second `secs`.
    fn fits_second(secs: i64, nanos: u32) -> (out: bool)
        requires
            FIRST_SECOND <= secs <= LAST_SECOND,
        ensures
            out == within_second(secs, nanos),
    {
        let since_first: i64 = secs - FIRST_SECOND;
        nanos < 1_000_000_000 || (nanos < 2_000_000_000 && since_first % 60 == 59)
    }

    /// Reads a text as a point in time, and shows that as the machine does
    /// now. A text that names none gives the timestamp of no point in time.
    pub fn parse(raw: &str) -> (out: TimeStamp)
        ensures
            out@.renders(parsed_instant(raw@)),
    {
        TimeStamp::at(parse_instant(raw))
    }

    /// Reads a JSON value as a point in time, and shows that as the machine
    /// does now. A value that is no string, or whose text names no point in
    /// time, gives the timestamp of none.
    pub fn from(jv: &json::JsonValue) -> (out: TimeStamp)
        ensures
            out@.renders(instant_held(json_tree(*jv))),
    {
        match as_str(jv) {
            Some(raw) => TimeStamp::parse(raw),
            None => TimeStamp::none(),
        }
    }

    /// Shows the timestamp in a column of `width` characters: as a distance
    /// from now where `alternate` is set, as a local date and time where it
    /// is not.
    pub fn fmt(&self, alternate: bool, width: usize) -> (out: String)
        ensures
            out@ == padded(self@.rendering(alternate), width as nat),
    {
        if alternate {
            pad(self.relative.as_str(), width)
        } else {
            pad(self.absolute.as_str(), width)
        }
    }
}

} // verus!
