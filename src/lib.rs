//! Human-readable timezone facts derived from a decoded TZif transition table:
//! the offset changes recorded for a year (or ever), and the offset, DST window,
//! abbreviation and ISO week that apply at a given instant.

mod calendar;
mod zone;
mod select;
mod name;
mod info;
mod laws;

pub use calendar::{iso_week_of, midnight_utc, utc_year_of};
pub use zone::{
    change_view, changes_view, resolvable, Timechange, TimechangeView, Ttinfo, TzError, ZoneData,
    ZoneDataView,
};
pub use select::{
    get_timechanges, in_window_indices, last_before, recorded_indices, select_timechanges,
    selected_indices, selection, result_view, timechanges_result, year_window, SENTINEL_TIMESTAMP,
};
pub use name::{display_name, last_slash, timezone_name, zoneinfo_dir};
pub use info::{
    current_change, get_zoneinfo, in_dst, info_view, local_time, local_time_result, state_in_week,
    zone_state, zone_state_in_week, zone_state_result, zoneinfo_result, Tzinfo, TzinfoView,
};
pub use laws::{lemma_no_change_in_year, lemma_no_sentinel, lemma_one_change_no_dst, lemma_timechanges_repeatable, lemma_two_changes_dst_window, lemma_two_changes_in_year};
