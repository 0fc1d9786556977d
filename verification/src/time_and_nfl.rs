//! The time of day together with a football team.

use vstd::prelude::*;

verus! {

/// The shape of a time of day: two digits each for hour, minute and second,
/// with colons between them.
pub open spec fn is_clock_text(text: Seq<char>) -> bool {
    &&& text.len() == 8
    &&& text[2] == ':'
    &&& text[5] == ':'
}

/// Reads the clock with `chrono::Utc::now` and writes the time of day with
/// `chrono::DateTime::format`, pattern `%H:%M:%S`. Trusted: the text has
/// eight characters, hour, minute and second zero-padded to two digits, with
/// a colon after the hour and after the minute. Nothing is claimed of the
/// digits, which depend on the clock. The call panics where the system
/// clock stands before 1970.
#[verifier::external_body]
fn current_utc_time() -> (text: String)
    ensures
        is_clock_text(text@),
{
    chrono::Utc::now().format("%H:%M:%S").to_string()
}

/// A time of day and a team.
#[derive(Debug, Clone, PartialEq, Eq)]
pub struct TimeAndNfl {
    pub time: String,
    pub team: String,
}

impl TimeAndNfl {
    /// The team that every value names.
    pub open spec fn team_name() -> Seq<char> {
        "Steelers"@
    }

    /// The value for the time of day `time`.
    pub fn at(time: String) -> (r: TimeAndNfl)
        ensures
            r.time@ == time@,
            r.team@ == TimeAndNfl::team_name(),
    {
        TimeAndNfl { time, team: "Steelers".to_owned() }
    }
}

/// The current time of day in UTC, with the team.
pub fn get_time_and_nfl() -> (r: TimeAndNfl)
    ensures
        is_clock_text(r.time@),
        r.team@ == TimeAndNfl::team_name(),
{
    TimeAndNfl::at(current_utc_time())
}

} // verus!
