use vstd::prelude::*;
use crate::calendar::{midnight_timestamp, midnight_utc, utc_year_of, year_of_timestamp};
use crate::zone::{change_view, changes_view, resolvable, Timechange, TimechangeView, TzError, ZoneData, ZoneDataView};

verus! {

/// A transition instant that some damaged system files carry; it is no real transition.
pub const SENTINEL_TIMESTAMP: i64 = -576460752303423488;

/// Indices below `n` whose instant is not the sentinel, in ascending order.
pub open spec fn recorded_indices(times: Seq<i64>, n: int) -> Seq<int>
    decreases n,
{
    if n <= 0 {
        Seq::empty()
    } else if times[n - 1] != SENTINEL_TIMESTAMP {
        recorded_indices(times, n - 1).push(n - 1)
    } else {
        recorded_indices(times, n - 1)
    }
}

/// Indices below `n` whose instant lies strictly between `begin` and `end`, in ascending order.
pub open spec fn in_window_indices(times: Seq<i64>, begin: i64, end: i64, n: int) -> Seq<int>
    decreases n,
{
    if n <= 0 {
        Seq::empty()
    } else if begin < times[n - 1] < end {
        in_window_indices(times, begin, end, n - 1).push(n - 1)
    } else {
        in_window_indices(times, begin, end, n - 1)
    }
}

/// The last index below `n` whose instant is before `begin`, or 0 where there is none.
pub open spec fn last_before(times: Seq<i64>, begin: i64, n: int) -> int
    decreases n,
{
    if n <= 0 {
        0
    } else if times[n - 1] < begin {
        n - 1
    } else {
        last_before(times, begin, n - 1)
    }
}

/// The transitions a query selects: with no window, every recorded one; with a
/// window, those strictly inside it, or else the last one before it.
pub open spec fn selected_indices(times: Seq<i64>, window: Option<(i64, i64)>) -> Seq<int> {
    match window {
        None => recorded_indices(times, times.len() as int),
        Some((begin, end)) => {
            let inside = in_window_indices(times, begin, end, times.len() as int);
            if inside.len() > 0 {
                inside
            } else {
                seq![last_before(times, begin, times.len() as int)]
            }
        },
    }
}

/// The changes a query returns, or why it fails.
pub open spec fn selection(z: ZoneDataView, window: Option<(i64, i64)>) -> Result<Seq<TimechangeView>, TzError> {
    if z.times.len() == 0 {
        Err(TzError::NoData)
    } else {
        let idx = selected_indices(z.times, window);
        if forall|k: int| 0 <= k < idx.len() ==> resolvable(z, #[trigger] idx[k]) {
            Ok(idx.map_values(|i: int| change_view(z, i)))
        } else {
            Err(TzError::ParseError)
        }
    }
}

/// From midnight UTC of January 1st to midnight UTC of December 31st of year `y`.
pub open spec fn year_window(y: i32) -> Option<(i64, i64)> {
    match (midnight_utc(y, 1, 1), midnight_utc(y, 12, 31)) {
        (Some(b), Some(e)) => Some((b, e)),
        _ => None,
    }
}

/// What `get_timechanges` returns: every recorded change for `None`, the changes of
/// the year of `now` for `Some(0)`, and those of year `y` for `Some(y)`.
pub open spec fn timechanges_result(z: ZoneDataView, y: Option<i32>, now: i64) -> Result<Seq<TimechangeView>, TzError> {
    match y {
        None => selection(z, None),
        Some(y) => {
            let year = if y == 0 { utc_year_of(now) } else { Some(y) };
            match year {
                None => Err(TzError::ParseError),
                Some(year) => match year_window(year) {
                    None => Err(TzError::ParseError),
                    Some(w) => selection(z, Some(w)),
                },
            }
        },
    }
}

pub open spec fn result_view(r: Result<Vec<Timechange>, TzError>) -> Result<Seq<TimechangeView>, TzError> {
    match r {
        Ok(v) => Ok(changes_view(v@)),
        Err(e) => Err(e),
    }
}

/// Indices of the transitions that a query selects.
fn selected_positions(times: &Vec<i64>, window: Option<(i64, i64)>) -> (r: Vec<usize>)
    requires
        times.len() > 0,
    ensures
        r@.map_values(|i: usize| i as int) == selected_indices(times@, window),
{
    let mut idx: Vec<usize> = Vec::new();
    match window {
        None => {
            let mut t: usize = 0;
            while t < times.len()
                invariant
                    t <= times.len(),
                    idx@.map_values(|i: usize| i as int) == recorded_indices(times@, t as int),
                decreases times.len() - t,
            {
                if times[t] != SENTINEL_TIMESTAMP {
                    idx.push(t);
                }
                assert(idx@.map_values(|i: usize| i as int) =~= recorded_indices(times@, t + 1));
                t += 1;
            }
            idx
        },
        Some((begin, end)) => {
            let mut nearest: usize = 0;
            let mut t: usize = 0;
            while t < times.len()
                invariant
                    t <= times.len(),
                    idx@.map_values(|i: usize| i as int) == in_window_indices(times@, begin, end, t as int),
                    nearest as int == last_before(times@, begin, t as int),
                decreases times.len() - t,
            {
                if times[t] > begin && times[t] < end {
                    idx.push(t);
                }
                if times[t] < begin {
                    nearest = t;
                }
                assert(idx@.map_values(|i: usize| i as int) =~= in_window_indices(times@, begin, end, t + 1));
                t += 1;
            }
            if idx.len() > 0 {
                idx
            } else {
                let r = vec![nearest];
                assert(r@.map_values(|i: usize| i as int) =~= seq![nearest as int]);
                r
            }
        },
    }
}

/// The changes at the given transition indices, in that order.
fn changes_at(z: &ZoneData, idx: &Vec<usize>) -> (r: Result<Vec<Timechange>, TzError>)
    ensures
        ({
            let s = idx@.map_values(|i: usize| i as int);
            result_view(r) == if forall|k: int| 0 <= k < s.len() ==> resolvable(z@, #[trigger] s[k]) {
                Ok(s.map_values(|i: int| change_view(z@, i)))
            } else {
                Err(TzError::ParseError)
            }
        }),
{
    let ghost s = idx@.map_values(|i: usize| i as int);
    let mut out: Vec<Timechange> = Vec::new();
    let mut k: usize = 0;
    while k < idx.len()
        invariant
            k <= idx.len(),
            s == idx@.map_values(|i: usize| i as int),
            forall|j: int| 0 <= j < k ==> resolvable(z@, #[trigger] s[j]),
            changes_view(out@) == s.take(k as int).map_values(|i: int| change_view(z@, i)),
        decreases idx.len() - k,
    {
        match z.change_at(idx[k]) {
            None => {
                assert(!resolvable(z@, s[k as int]));
                return Err(TzError::ParseError);
            },
            Some(c) => {
                let ghost prev = out@;
                out.push(c);
                assert(s[k as int] == idx@[k as int] as int);
                assert(changes_view(out@) =~= changes_view(prev).push(c@));
                assert(s.take(k + 1) =~= s.take(k as int).push(s[k as int]));
                assert(changes_view(out@) =~= s.take(k + 1).map_values(|i: int| change_view(z@, i)));
                k += 1;
            },
        }
    }
    assert(s.take(k as int) =~= s);
    Ok(out)
}

/// The changes that a window selects: with `None`, every recorded change but the
/// sentinel ones; with `Some((begin, end))`, those strictly between the bounds, or,
/// where there is none, the last one before `begin` (the first one where no change
/// precedes it). Fails with `NoData` on an empty table, and with `ParseError` where
/// a selected change refers to a missing table entry.
pub fn select_timechanges(z: &ZoneData, window: Option<(i64, i64)>) -> (r: Result<Vec<Timechange>, TzError>)
    ensures
        result_view(r) == selection(z@, window),
{
    if z.tzh_timecnt_data.len() == 0 {
        return Err(TzError::NoData);
    }
    let idx = selected_positions(&z.tzh_timecnt_data, window);
    changes_at(z, &idx)
}

/// The changes recorded for year `y` of a zone: with `None` all of them, with
/// `Some(0)` those of the year of `now`, with `Some(y)` those of year `y`. A year
/// runs here from midnight UTC of January 1st to midnight UTC of December 31st,
/// both excluded.
pub fn get_timechanges(z: &ZoneData, y: Option<i32>, now: i64) -> (r: Result<Vec<Timechange>, TzError>)
    ensures
        result_view(r) == timechanges_result(z@, y, now),
{
    match y {
        None => select_timechanges(z, None),
        Some(y) => {
            let year = if y == 0 {
                match year_of_timestamp(now) {
                    Some(v) => v,
                    None => return Err(TzError::ParseError),
                }
            } else {
                y
            };
            let begin = match midnight_timestamp(year, 1, 1) {
                Some(b) => b,
                None => return Err(TzError::ParseError),
            };
            let end = match midnight_timestamp(year, 12, 31) {
                Some(e) => e,
                None => return Err(TzError::ParseError),
            };
            select_timechanges(z, Some((begin, end)))
        },
    }
}

} // verus!
