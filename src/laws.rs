use vstd::prelude::*;
use crate::info::{zoneinfo_result, TzinfoView};
use crate::select::{
    in_window_indices, last_before, recorded_indices, result_view, timechanges_result, year_window,
    SENTINEL_TIMESTAMP,
};
use crate::zone::{change_view, resolvable, Timechange, TimechangeView, TzError, ZoneDataView};

verus! {

proof fn lemma_window_two(times: Seq<i64>, b: i64, e: i64, i: int, j: int, n: int)
    requires
        0 <= i < j,
        n <= times.len(),
        b < times[i] < e,
        j < times.len() && b < times[j] < e,
        forall|k: int| 0 <= k < times.len() && k != i && k != j ==> !(b < #[trigger] times[k] < e),
    ensures
        in_window_indices(times, b, e, n) == if n <= i {
            Seq::<int>::empty()
        } else if n <= j {
            seq![i]
        } else {
            seq![i, j]
        },
    decreases n,
{
    if n > 0 {
        lemma_window_two(times, b, e, i, j, n - 1);
        if n - 1 == i {
            assert(Seq::<int>::empty().push(i) =~= seq![i]);
        } else if n - 1 == j {
            assert(seq![i].push(j) =~= seq![i, j]);
        }
    }
}

proof fn lemma_window_empty(times: Seq<i64>, b: i64, e: i64, n: int)
    requires
        n <= times.len(),
        forall|k: int| 0 <= k < times.len() ==> !(b < #[trigger] times[k] < e),
    ensures
        in_window_indices(times, b, e, n).len() == 0,
    decreases n,
{
    if n > 0 {
        lemma_window_empty(times, b, e, n - 1);
    }
}

proof fn lemma_last_before(times: Seq<i64>, b: i64, m: int, n: int)
    requires
        0 <= m < n <= times.len(),
        times[m] < b,
        forall|k: int| m < k < times.len() ==> #[trigger] times[k] >= b,
    ensures
        last_before(times, b, n) == m,
    decreases n,
{
    if n - 1 > m {
        lemma_last_before(times, b, m, n - 1);
    }
}

proof fn lemma_recorded(times: Seq<i64>, n: int)
    requires
        n <= times.len(),
    ensures
        forall|k: int| 0 <= k < recorded_indices(times, n).len() ==>
            0 <= #[trigger] recorded_indices(times, n)[k] < times.len()
            && times[recorded_indices(times, n)[k]] != SENTINEL_TIMESTAMP,
    decreases n,
{
    if n > 0 {
        lemma_recorded(times, n - 1);
        let prev = recorded_indices(times, n - 1);
        if times[n - 1] != SENTINEL_TIMESTAMP {
            assert forall|k: int| 0 <= k < prev.len() + 1 implies #[trigger] prev.push(n - 1)[k] == if k
                < prev.len() {
                prev[k]
            } else {
                n - 1
            } by {}
        }
    }
}

/// Where exactly two transitions, `i` before `j`, lie inside year `y`, the changes
/// of that year are those two, in that order, each as its tables give it; with
/// ascending instants the first is the earlier.
pub proof fn lemma_two_changes_in_year(z: ZoneDataView, y: i32, now: i64, i: int, j: int)
    requires
        y != 0,
        year_window(y) is Some,
        0 <= i < j < z.times.len(),
        ({
            let (b, e) = year_window(y)->0;
            &&& b < z.times[i] < e
            &&& b < z.times[j] < e
            &&& forall|k: int| 0 <= k < z.times.len() && k != i && k != j ==> !(b < #[trigger] z.times[k] < e)
        }),
        resolvable(z, i),
        resolvable(z, j),
    ensures
        timechanges_result(z, Some(y), now) == Ok::<Seq<TimechangeView>, TzError>(
            seq![change_view(z, i), change_view(z, j)],
        ),
        (forall|a: int, c: int| 0 <= a < c < z.times.len() ==> z.times[a] < z.times[c])
            ==> change_view(z, i).time < change_view(z, j).time,
{
    let (b, e) = year_window(y)->0;
    lemma_window_two(z.times, b, e, i, j, z.times.len() as int);
    let idx = seq![i, j];
    assert(forall|k: int| 0 <= k < idx.len() ==> resolvable(z, #[trigger] idx[k]));
    assert(idx.map_values(|x: int| change_view(z, x)) =~= seq![change_view(z, i), change_view(z, j)]);
}

/// Where no transition lies inside year `y`, the changes of that year are the one
/// latest transition before its first instant.
pub proof fn lemma_no_change_in_year(z: ZoneDataView, y: i32, now: i64, m: int)
    requires
        y != 0,
        year_window(y) is Some,
        0 <= m < z.times.len(),
        ({
            let (b, e) = year_window(y)->0;
            &&& forall|k: int| 0 <= k < z.times.len() ==> !(b < #[trigger] z.times[k] < e)
            &&& z.times[m] < b
            &&& forall|k: int| m < k < z.times.len() ==> #[trigger] z.times[k] >= b
        }),
        resolvable(z, m),
    ensures
        timechanges_result(z, Some(y), now) == Ok::<Seq<TimechangeView>, TzError>(seq![change_view(z, m)]),
{
    let (b, e) = year_window(y)->0;
    lemma_window_empty(z.times, b, e, z.times.len() as int);
    lemma_last_before(z.times, b, m, z.times.len() as int);
    let idx = seq![m];
    assert(forall|k: int| 0 <= k < idx.len() ==> resolvable(z, #[trigger] idx[k]));
    assert(idx.map_values(|x: int| change_view(z, x)) =~= seq![change_view(z, m)]);
}

/// Listing every change never yields one at the sentinel instant.
pub proof fn lemma_no_sentinel(z: ZoneDataView, now: i64)
    ensures
        timechanges_result(z, None, now) matches Ok(s) ==> forall|k: int| 0 <= k < s.len()
            ==> (#[trigger] s[k]).time != SENTINEL_TIMESTAMP,
{
    lemma_recorded(z.times, z.times.len() as int);
}

/// Two queries with the same arguments on equal data return equal results.
pub proof fn lemma_timechanges_repeatable(
    z1: ZoneDataView,
    z2: ZoneDataView,
    y: Option<i32>,
    now: i64,
    r1: Result<Vec<Timechange>, TzError>,
    r2: Result<Vec<Timechange>, TzError>,
)
    requires
        z1 == z2,
        result_view(r1) == timechanges_result(z1, y, now),
        result_view(r2) == timechanges_result(z2, y, now),
    ensures
        result_view(r1) == result_view(r2),
{
}

/// With one change in the current year, the zone is never in DST, has no DST
/// offset and no DST window.
pub proof fn lemma_one_change_no_dst(requested: Seq<char>, z: ZoneDataView, now: i64)
    requires
        timechanges_result(z, Some(0), now) matches Ok(c) && c.len() == 1,
    ensures
        zoneinfo_result(requested, z, now) matches Ok(i) ==> !i.dst_period && i.dst_offset == 0
            && i.dst_from is None && i.dst_until is None,
{
}

/// With two changes `a`, `b` in the current year, the zone is in DST exactly when
/// `now` lies strictly between them, and its standard offset is that of `b`.
pub proof fn lemma_two_changes_dst_window(requested: Seq<char>, z: ZoneDataView, now: i64)
    requires
        timechanges_result(z, Some(0), now) matches Ok(c) && c.len() == 2,
    ensures
        ({
            let c = timechanges_result(z, Some(0), now)->Ok_0;
            zoneinfo_result(requested, z, now) matches Ok(i) ==> i.dst_period == (c[0].time < now
                && now < c[1].time) && i.raw_offset == c[1].gmtoff
        }),
{
}

} // verus!
