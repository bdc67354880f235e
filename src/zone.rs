use vstd::prelude::*;

verus! {

/// Failures of a query.
#[derive(Debug, Clone, Copy, PartialEq, Eq, Structural)]
pub enum TzError {
    /// The zone identifier does not have the expected path shape.
    InvalidTimezone,
    /// The file does not start with the TZif magic.
    InvalidMagic,
    /// The abbreviation table is not valid UTF-8.
    BadUtf8String,
    /// Only version 2 files are read.
    UnsupportedFormat,
    /// The transition table is empty, or no usable transition was selected.
    NoData,
    /// The table refers to a missing entry, or a computed instant is out of range.
    ParseError,
    /// The abbreviation table is empty.
    EmptyString,
}

/// One entry of the local time type table.
#[derive(Debug, Clone, Copy, PartialEq, Eq, Structural)]
pub struct Ttinfo {
    /// Offset to UTC, in seconds east.
    pub tt_gmtoff: isize,
    /// 1 when the type is daylight saving time.
    pub tt_isdst: u8,
    /// Index into the abbreviation table.
    pub tt_abbrind: u8,
}

/// A decoded timezone file: transition instants, the type of each transition,
/// the type table and the abbreviation table.
#[derive(Debug, Clone)]
pub struct ZoneData {
    /// Transition instants, UTC seconds since the epoch, in ascending order.
    pub tzh_timecnt_data: Vec<i64>,
    /// For each transition, an index into `tzh_typecnt`.
    pub tzh_timecnt_indices: Vec<u8>,
    /// The local time type table.
    pub tzh_typecnt: Vec<Ttinfo>,
    /// The abbreviation table.
    pub tz_abbr: Vec<String>,
}

pub ghost struct ZoneDataView {
    pub times: Seq<i64>,
    pub indices: Seq<u8>,
    pub types: Seq<Ttinfo>,
    pub abbrs: Seq<Seq<char>>,
}

impl View for ZoneData {
    type V = ZoneDataView;

    open spec fn view(&self) -> ZoneDataView {
        ZoneDataView {
            times: self.tzh_timecnt_data@,
            indices: self.tzh_timecnt_indices@,
            types: self.tzh_typecnt@,
            abbrs: self.tz_abbr@.map_values(|s: String| s@),
        }
    }
}

/// One offset change: from `time` on, `gmtoff`, `isdst` and `abbreviation` apply.
#[derive(Debug, Clone, PartialEq)]
pub struct Timechange {
    /// The instant of the change, UTC seconds since the epoch.
    pub time: i64,
    /// The offset to UTC that applies from `time` on, in seconds.
    pub gmtoff: isize,
    /// Whether the new type is daylight saving time.
    pub isdst: bool,
    /// The abbreviation of the new type.
    pub abbreviation: String,
}

pub ghost struct TimechangeView {
    pub time: i64,
    pub gmtoff: isize,
    pub isdst: bool,
    pub abbreviation: Seq<char>,
}

impl View for Timechange {
    type V = TimechangeView;

    open spec fn view(&self) -> TimechangeView {
        TimechangeView {
            time: self.time,
            gmtoff: self.gmtoff,
            isdst: self.isdst,
            abbreviation: self.abbreviation@,
        }
    }
}

pub open spec fn changes_view(v: Seq<Timechange>) -> Seq<TimechangeView> {
    v.map_values(|c: Timechange| c@)
}

/// Transition `i` exists and its type and abbreviation are in the tables.
pub open spec fn resolvable(z: ZoneDataView, i: int) -> bool {
    &&& 0 <= i < z.times.len()
    &&& i < z.indices.len()
    &&& (z.indices[i] as int) < z.types.len()
    &&& (z.types[z.indices[i] as int].tt_abbrind as int) < z.abbrs.len()
}

/// Transition `i` with its type looked up.
pub open spec fn change_view(z: ZoneDataView, i: int) -> TimechangeView {
    let ty = z.types[z.indices[i] as int];
    TimechangeView {
        time: z.times[i],
        gmtoff: ty.tt_gmtoff,
        isdst: ty.tt_isdst == 1,
        abbreviation: z.abbrs[ty.tt_abbrind as int],
    }
}

impl ZoneData {
    /// Transition `i` with its type looked up, or `None` where the tables lack an entry.
    pub fn change_at(&self, i: usize) -> (r: Option<Timechange>)
        ensures
            r.is_some() == resolvable(self@, i as int),
            r matches Some(c) ==> c@ == change_view(self@, i as int),
    {
        if i >= self.tzh_timecnt_data.len() || i >= self.tzh_timecnt_indices.len() {
            return None;
        }
        let k = self.tzh_timecnt_indices[i] as usize;
        if k >= self.tzh_typecnt.len() {
            return None;
        }
        let ty = self.tzh_typecnt[k];
        let a = ty.tt_abbrind as usize;
        if a >= self.tz_abbr.len() {
            return None;
        }
        let abbreviation = self.tz_abbr[a].clone();
        proof {
            assert(self@.abbrs[a as int] == self.tz_abbr@[a as int]@);
        }
        Some(Timechange {
            time: self.tzh_timecnt_data[i],
            gmtoff: ty.tt_gmtoff,
            isdst: ty.tt_isdst == 1,
            abbreviation,
        })
    }
}

} // verus!
