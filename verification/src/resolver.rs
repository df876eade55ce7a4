use vstd::prelude::*;
use crate::datetime::date_string_ok;
use crate::datetime::parse_date_string;
use crate::options::Cli;
use crate::timestamp::pair_from_epoch;
use crate::timestamp::Timestamp;
use crate::timestamp::TimestampPair;

verus! {

/// Why a date string yields no timestamp pair.
#[derive(Clone, Copy, PartialEq, Eq, Structural, Debug)]
pub enum DateError {
    /// The string matches neither accepted format, or its fields name no
    /// real calendar date or time of day.
    Unparsable,
    /// The fields parse, but the machine's local time zone has no unique
    /// instant for them (a daylight-saving gap or fold, or a date outside
    /// the zone database's range).
    NotRepresentable,
}

/// Which of the three mutually exclusive sources decides the timestamps.
#[derive(Clone, Copy, PartialEq, Eq, Structural, Debug)]
pub enum TimeSource {
    FromDate,
    FromReference,
    CurrentTime,
}

/// Relies on chrono's `TimeZone::with_ymd_and_hms` on `Local` and on
/// `DateTime::timestamp`: maps a calendar time, read in the machine's local
/// time zone, to whole seconds since the Unix epoch. `None` when the local
/// zone maps the fields to no instant or to two (chrono's `MappedLocalTime`
/// is not `Single`). The answer depends on the machine's time zone, so
/// nothing is stated of it.
#[verifier::external_body]
fn local_epoch_seconds(year: u32, month: u32, day: u32, hour: u32, minute: u32, second: u32) -> (r:
    Option<i64>)
{
    match chrono::TimeZone::with_ymd_and_hms(
        &chrono::Local,
        year as i32,
        month,
        day,
        hour,
        minute,
        second,
    ) {
        chrono::MappedLocalTime::Single(t) => Some(t.timestamp()),
        chrono::MappedLocalTime::Ambiguous(_, _) => None,
        chrono::MappedLocalTime::None => None,
    }
}

/// The timestamp pair a date string resolves to: both times are the single
/// whole-second instant the string denotes in the machine's local time zone.
/// `Unparsable` comes back exactly when the string is not an accepted date
/// string; `NotRepresentable` only when it is, but the local time zone gives
/// it no unique instant.
pub fn times_from_date(s: &str) -> (r: Result<TimestampPair, DateError>)
    ensures
        (r is Err && r->Err_0 == DateError::Unparsable) <==> !date_string_ok(s@),
        r matches Ok(p) ==> p.well_formed() && p.modification == p.access && p.access.nanos == 0,
{
    match parse_date_string(s) {
        None => Err(DateError::Unparsable),
        Some(dt) => {
            match local_epoch_seconds(dt.year, dt.month, dt.day, dt.hour, dt.minute, dt.second) {
                None => Err(DateError::NotRepresentable),
                Some(secs) => Ok(pair_from_epoch(secs)),
            }
        },
    }
}

/// One invocation's worth of state: the parsed options, and the timestamp
/// pair once it has been resolved. The pair is resolved once and shared by
/// every file in the batch.
pub struct Executor {
    pub cli: Cli,
    pub times: Option<TimestampPair>,
}

impl Executor {
    pub fn with_cli(cli: Cli) -> (e: Executor)
        ensures
            e.cli == cli,
            e.times is None,
    {
        Executor { cli, times: None }
    }

    /// Which source decides the timestamps: a date string wins over a
    /// reference path, and the current time stands in when neither is given.
    pub fn time_source(&self) -> (src: TimeSource)
        ensures
            src is FromDate <==> crate::options::wants_date(self.cli),
            src is FromReference <==> crate::options::wants_reference(self.cli),
            src is CurrentTime <==> crate::options::wants_now(self.cli),
    {
        if self.cli.date.is_some() {
            TimeSource::FromDate
        } else if self.cli.reference.is_some() {
            TimeSource::FromReference
        } else {
            TimeSource::CurrentTime
        }
    }

    /// Resolves the timestamp pair from the single source that
    /// `time_source` picks. The shell supplies `reference_times` (the
    /// reference file's current pair, read from the filesystem) whenever a
    /// reference path is to decide, and `now` (the wall clock) otherwise.
    /// A reference pair is taken verbatim; the current time is used for both
    /// times; a date string resolves through `times_from_date`, and its
    /// errors are the only errors.
    pub fn get_times(&mut self, reference_times: Option<TimestampPair>, now: Timestamp) -> (r:
        Result<(), DateError>)
        requires
            crate::options::wants_reference(old(self).cli) ==> reference_times is Some,
            reference_times is Some ==> reference_times->0.well_formed(),
            now.well_formed(),
        ensures
            final(self).cli == old(self).cli,
            r is Err ==> final(self).times == old(self).times,
            r is Ok ==> (final(self).times matches Some(p) && p.well_formed()),
            crate::options::wants_date(old(self).cli) ==> {
                &&& (r is Err && r->Err_0 == DateError::Unparsable) <==> !date_string_ok(
                    old(self).cli.date->0@,
                )
                &&& r is Ok ==> date_string_ok(old(self).cli.date->0@)
                    && final(self).times->0.modification == final(self).times->0.access
                    && final(self).times->0.access.nanos == 0
            },
            crate::options::wants_reference(old(self).cli) ==> r is Ok && final(self).times
                == Some(reference_times->0),
            crate::options::wants_now(old(self).cli) ==> r is Ok && final(self).times == Some(
                TimestampPair { access: now, modification: now },
            ),
    {
        match &self.cli.date {
            Some(d) => {
                match times_from_date(d.as_str()) {
                    Ok(p) => {
                        self.times = Some(p);
                        Ok(())
                    },
                    Err(e) => Err(e),
                }
            },
            None => {
                if self.cli.reference.is_some() {
                    self.times = Some(reference_times.unwrap());
                } else {
                    self.times = Some(TimestampPair { access: now, modification: now });
                }
                Ok(())
            },
        }
    }
}

} // verus!
