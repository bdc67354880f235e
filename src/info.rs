use vstd::prelude::*;
use crate::calendar::{fixed_offset, iso_week_number, iso_week_of};
use crate::name::{display_name, timezone_name};
use crate::select::{get_timechanges, timechanges_result};
use crate::zone::{changes_view, Timechange, TimechangeView, TzError, ZoneData, ZoneDataView};

verus! {

/// What holds of a zone at one instant.
#[derive(Debug, Clone)]
pub struct Tzinfo {
    /// Display name of the zone.
    pub timezone: String,
    /// The instant, UTC seconds since the epoch.
    pub utc_datetime: i64,
    /// The same instant on the local wall clock, in seconds since 1970-01-01T00:00:00 local.
    pub datetime: i64,
    /// Start of the DST period of the year.
    pub dst_from: Option<i64>,
    /// End of the DST period of the year.
    pub dst_until: Option<i64>,
    /// Whether the instant lies in the DST period.
    pub dst_period: bool,
    /// Standard offset to UTC, in seconds.
    pub raw_offset: isize,
    /// DST offset to UTC, in seconds; 0 where the zone keeps one offset all year.
    pub dst_offset: isize,
    /// Offset to UTC in force at the instant, in seconds east.
    pub utc_offset: i32,
    /// Abbreviation in force at the instant.
    pub abbreviation: String,
    /// ISO-8601 week number of the local date.
    pub week_number: i32,
}

pub ghost struct TzinfoView {
    pub timezone: Seq<char>,
    pub utc_datetime: i64,
    pub datetime: i64,
    pub dst_from: Option<i64>,
    pub dst_until: Option<i64>,
    pub dst_period: bool,
    pub raw_offset: isize,
    pub dst_offset: isize,
    pub utc_offset: i32,
    pub abbreviation: Seq<char>,
    pub week_number: i32,
}

impl View for Tzinfo {
    type V = TzinfoView;

    open spec fn view(&self) -> TzinfoView {
        TzinfoView {
            timezone: self.timezone@,
            utc_datetime: self.utc_datetime,
            datetime: self.datetime,
            dst_from: self.dst_from,
            dst_until: self.dst_until,
            dst_period: self.dst_period,
            raw_offset: self.raw_offset,
            dst_offset: self.dst_offset,
            utc_offset: self.utc_offset,
            abbreviation: self.abbreviation@,
            week_number: self.week_number,
        }
    }
}

pub open spec fn info_view(r: Result<Tzinfo, TzError>) -> Result<TzinfoView, TzError> {
    match r {
        Ok(i) => Ok(i@),
        Err(e) => Err(e),
    }
}

/// With two changes in the year, `now` lies in DST when strictly between them.
pub open spec fn in_dst(c: Seq<TimechangeView>, now: i64) -> bool {
    c.len() == 2 && c[0].time < now && now < c[1].time
}

/// The change whose parameters are in force at `now`: the first of two during
/// DST, else the last one.
pub open spec fn current_change(c: Seq<TimechangeView>, now: i64) -> TimechangeView {
    if in_dst(c, now) {
        c[0]
    } else {
        c[c.len() - 1]
    }
}

/// The local wall-clock time at `now`, from the changes of the current year: one
/// change gives its offset all year; two give the first one's offset strictly
/// between them and the second one's elsewhere. Any other count: `NoData`. An
/// offset chrono cannot represent, or a local time out of `i64`: `ParseError`.
pub open spec fn local_time_result(c: Seq<TimechangeView>, now: i64) -> Result<i64, TzError> {
    if c.len() != 1 && c.len() != 2 {
        Err(TzError::NoData)
    } else {
        let cur = current_change(c, now);
        let local = now + cur.gmtoff;
        if !(-86400 < cur.gmtoff < 86400) || !(i64::MIN <= local <= i64::MAX) {
            Err(TzError::ParseError)
        } else {
            Ok(local as i64)
        }
    }
}

/// The state of a zone at `now`, where `week` is the ISO week of the local time
/// (`None` where it has none). The standard offset is the last change's; the DST
/// offset and window are the first change's and both instants where there are
/// two changes, 0 and none where there is one.
pub open spec fn state_in_week(name: Seq<char>, c: Seq<TimechangeView>, now: i64, week: Option<u32>) -> Result<TzinfoView, TzError> {
    match local_time_result(c, now) {
        Err(e) => Err(e),
        Ok(local) => match week {
            None => Err(TzError::ParseError),
            Some(week) => {
                let cur = current_change(c, now);
                Ok(TzinfoView {
                    timezone: name,
                    utc_datetime: now,
                    datetime: local,
                    dst_from: if c.len() == 2 { Some(c[0].time) } else { None },
                    dst_until: if c.len() == 2 { Some(c[1].time) } else { None },
                    dst_period: in_dst(c, now),
                    raw_offset: c[c.len() - 1].gmtoff,
                    dst_offset: if c.len() == 2 { c[0].gmtoff } else { 0 },
                    utc_offset: cur.gmtoff as i32,
                    abbreviation: cur.abbreviation,
                    week_number: week as i32,
                })
            },
        },
    }
}

/// What `zone_state` returns: the state at `now` with the ISO week of the local time.
pub open spec fn zone_state_result(name: Seq<char>, c: Seq<TimechangeView>, now: i64) -> Result<TzinfoView, TzError> {
    match local_time_result(c, now) {
        Err(e) => Err(e),
        Ok(local) => state_in_week(name, c, now, iso_week_of(local)),
    }
}

/// What `get_zoneinfo` returns.
pub open spec fn zoneinfo_result(requested: Seq<char>, z: ZoneDataView, now: i64) -> Result<TzinfoView, TzError> {
    match display_name(requested) {
        None => Err(TzError::InvalidTimezone),
        Some(name) => match timechanges_result(z, Some(0), now) {
            Err(e) => Err(e),
            Ok(c) => zone_state_result(name, c, now),
        },
    }
}

/// The local wall-clock time at `now` (see `local_time_result`).
pub fn local_time(changes: &Vec<Timechange>, now: i64) -> (r: Result<i64, TzError>)
    ensures
        r == local_time_result(changes_view(changes@), now),
{
    let ghost c = changes_view(changes@);
    let n = changes.len();
    if n != 1 && n != 2 {
        return Err(TzError::NoData);
    }
    let dst = n == 2 && now > changes[0].time && now < changes[1].time;
    let cur: usize = if dst { 0 } else { n - 1 };
    assert(c[cur as int] == current_change(c, now));
    let gmtoff = changes[cur].gmtoff;
    if gmtoff <= -86400 || gmtoff >= 86400 {
        return Err(TzError::ParseError);
    }
    let offset = match fixed_offset(gmtoff as i32) {
        Some(o) => o,
        None => return Err(TzError::ParseError),
    };
    if (offset > 0 && now > i64::MAX - offset as i64) || (offset < 0 && now < i64::MIN - offset as i64) {
        return Err(TzError::ParseError);
    }
    Ok(now + offset as i64)
}

/// The state of a zone at `now`, from the changes of the current year, with `week`
/// as the ISO week of the local time (see `state_in_week`).
pub fn zone_state_in_week(timezone: String, changes: &Vec<Timechange>, now: i64, week: Option<u32>) -> (r: Result<Tzinfo, TzError>)
    ensures
        info_view(r) == state_in_week(timezone@, changes_view(changes@), now, week),
{
    let ghost c = changes_view(changes@);
    let local = match local_time(changes, now) {
        Ok(l) => l,
        Err(e) => return Err(e),
    };
    let week = match week {
        Some(w) => w,
        None => return Err(TzError::ParseError),
    };
    let n = changes.len();
    let dst = n == 2 && now > changes[0].time && now < changes[1].time;
    let cur: usize = if dst { 0 } else { n - 1 };
    assert(c[cur as int] == current_change(c, now));
    let (dst_from, dst_until, dst_offset) = if n == 2 {
        (Some(changes[0].time), Some(changes[1].time), changes[0].gmtoff)
    } else {
        (None, None, 0)
    };
    Ok(Tzinfo {
        timezone,
        utc_datetime: now,
        datetime: local,
        dst_from,
        dst_until,
        dst_period: dst,
        raw_offset: changes[n - 1].gmtoff,
        dst_offset,
        utc_offset: changes[cur].gmtoff as i32,
        abbreviation: changes[cur].abbreviation.clone(),
        week_number: week as i32,
    })
}

/// The state of a zone at `now`, from the changes of the current year (see
/// `zone_state_result`). With one change there is no DST; with two, DST holds
/// strictly between them and the standard offset is the second one's.
pub fn zone_state(timezone: String, changes: &Vec<Timechange>, now: i64) -> (r: Result<Tzinfo, TzError>)
    ensures
        info_view(r) == zone_state_result(timezone@, changes_view(changes@), now),
        changes.len() == 1 ==> (r matches Ok(i) ==> !i.dst_period && i.dst_offset == 0
            && i.dst_from is None && i.dst_until is None),
        changes.len() == 2 ==> (r matches Ok(i) ==> i.dst_period == (changes[0].time < now
            && now < changes[1].time) && i.raw_offset == changes[1].gmtoff),
{
    let local = match local_time(changes, now) {
        Ok(l) => l,
        Err(e) => return Err(e),
    };
    let week = iso_week_number(local);
    zone_state_in_week(timezone, changes, now, week)
}

/// The state at `now` of the zone named by `requested` (a path ending in
/// `zoneinfo/Area/Location` or `zoneinfo/Name`), whose decoded file is `z`.
pub fn get_zoneinfo(requested: &str, z: &ZoneData, now: i64) -> (r: Result<Tzinfo, TzError>)
    ensures
        info_view(r) == zoneinfo_result(requested@, z@, now),
{
    let timezone = match timezone_name(requested) {
        Ok(s) => s,
        Err(e) => return Err(e),
    };
    let changes = match get_timechanges(z, Some(0), now) {
        Ok(c) => c,
        Err(e) => return Err(e),
    };
    zone_state(timezone, &changes, now)
}

} // verus!
