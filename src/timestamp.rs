//! Authorship timestamps and their fixed absolute text form.

use vstd::prelude::*;

verus! {

/// Milliseconds since the Unix epoch, with the author's time zone offset in
/// minutes east of UTC.
pub struct Timestamp {
    pub millis: i64,
    pub tz_offset: i32,
}

/// The largest offset, in minutes either way, whose count of seconds fits in
/// an `i32`.
pub const MAX_TZ_OFFSET: i32 = 35791394;

impl Timestamp {
    /// The offset can be turned into seconds without overflow.
    pub open spec fn wf(&self) -> bool {
        -MAX_TZ_OFFSET <= self.tz_offset <= MAX_TZ_OFFSET
    }
}

/// Instants within about 253,500 years of the epoch either way, all of which
/// have a calendar date.
pub open spec fn in_date_range(millis: i64) -> bool {
    -8_000_000_000_000_000 <= millis <= 8_000_000_000_000_000
}

/// The error when a timestamp lies outside the range of representable dates.
#[derive(Debug, PartialEq, Eq, Structural)]
pub enum TimestampError {
    OutOfRange,
}

/// The text `%Y-%m-%d %H:%M:%S.%3f %:z` of the instant `millis`, shown at the
/// offset `tz_offset` where that offset is under a day either way, and at
/// +00:00 otherwise.
pub uninterp spec fn absolute_timestamp_text(millis: int, tz_offset: int) -> Seq<char>;

#[verifier::external_type_specification]
#[verifier::external_body]
pub struct ExTimestampOutOfRange(jj_lib::backend::TimestampOutOfRange);

/// Relies on jj_cli's `time_util::format_absolute_timestamp`: a fixed,
/// locale-independent format of the instant and offset alone. It fails only
/// where chrono has no date for the instant (years beyond 262,142 either
/// way). Converting the offset to seconds overflows outside the range that
/// `wf` admits.
#[verifier::external_body]
fn format_absolute_timestamp(
    millis: i64,
    tz_offset: i32,
) -> (r: Result<String, jj_lib::backend::TimestampOutOfRange>)
    requires
        -MAX_TZ_OFFSET <= tz_offset <= MAX_TZ_OFFSET,
    ensures
        r matches Ok(s) ==> s@ == absolute_timestamp_text(millis as int, tz_offset as int),
        in_date_range(millis) ==> r is Ok,
{
    jj_cli::time_util::format_absolute_timestamp(
        &jj_lib::backend::Timestamp {
            timestamp: jj_lib::backend::MillisSinceEpoch(millis),
            tz_offset,
        },
    )
}

impl Timestamp {
    /// The absolute text of this timestamp, or `OutOfRange` where the date
    /// cannot be represented; always the text within `in_date_range`.
    pub fn format_absolute(&self) -> (r: Result<String, TimestampError>)
        requires
            self.wf(),
        ensures
            r matches Ok(s) ==> s@ == absolute_timestamp_text(
                self.millis as int,
                self.tz_offset as int,
            ),
            in_date_range(self.millis) ==> r is Ok,
    {
        match format_absolute_timestamp(self.millis, self.tz_offset) {
            Ok(s) => Ok(s),
            Err(_) => Err(TimestampError::OutOfRange),
        }
    }
}

} // verus!
