use chrono::TimeZone;
use tzparse::{
    get_timechanges, get_zoneinfo, local_time, select_timechanges, timezone_name, zone_state,
    zone_state_in_week, Timechange,
    Ttinfo, TzError, ZoneData, SENTINEL_TIMESTAMP,
};

fn utc(y: i32, m: u32, d: u32, h: u32) -> i64 {
    chrono::Utc.with_ymd_and_hms(y, m, d, h, 0, 0).unwrap().timestamp()
}

fn from_file(path: &str) -> ZoneData {
    let tz = libtzfile::parse(path).unwrap();
    ZoneData {
        tzh_timecnt_data: tz.tzh_timecnt_data,
        tzh_timecnt_indices: tz.tzh_timecnt_indices,
        tzh_typecnt: tz
            .tzh_typecnt
            .iter()
            .map(|t| Ttinfo { tt_gmtoff: t.tt_gmtoff, tt_isdst: t.tt_isdst, tt_abbrind: t.tt_abbrind })
            .collect(),
        tz_abbr: tz.tz_abbr,
    }
}

fn change(time: i64, gmtoff: isize, isdst: bool, abbreviation: &str) -> Timechange {
    Timechange { time, gmtoff, isdst, abbreviation: String::from(abbreviation) }
}

// A Paris-like table: LMT, then CET/CEST switching in 2018, 2019 and 2020.
fn paris_like() -> ZoneData {
    ZoneData {
        tzh_timecnt_data: vec![
            utc(1911, 3, 10, 23),
            utc(2018, 3, 25, 1),
            utc(2018, 10, 28, 1),
            utc(2019, 3, 31, 1),
            utc(2019, 10, 27, 1),
            utc(2020, 3, 29, 1),
            utc(2020, 10, 25, 1),
        ],
        tzh_timecnt_indices: vec![2, 1, 2, 1, 2, 1, 2],
        tzh_typecnt: vec![
            Ttinfo { tt_gmtoff: 561, tt_isdst: 0, tt_abbrind: 0 },
            Ttinfo { tt_gmtoff: 7200, tt_isdst: 1, tt_abbrind: 1 },
            Ttinfo { tt_gmtoff: 3600, tt_isdst: 0, tt_abbrind: 2 },
        ],
        tz_abbr: vec![String::from("LMT"), String::from("CEST"), String::from("CET")],
    }
}

#[test]
fn zoneinfo() {
    let tz = vec![
        Timechange {
            time: chrono::Utc.with_ymd_and_hms(2019, 3, 31, 1, 0, 0).unwrap().timestamp(),
            gmtoff: 7200,
            isdst: true,
            abbreviation: String::from("CEST"),
        },
        Timechange {
            time: chrono::Utc.with_ymd_and_hms(2019, 10, 27, 1, 0, 0).unwrap().timestamp(),
            gmtoff: 3600,
            isdst: false,
            abbreviation: String::from("CET"),
        },
    ];
    let zone = from_file("/usr/share/zoneinfo/Europe/Paris");
    let now = chrono::Utc::now().timestamp();
    assert_eq!(get_timechanges(&zone, Some(2019), now).unwrap(), tz);
}

#[test]
fn two_changes_in_year_in_order() {
    let r = get_timechanges(&paris_like(), Some(2019), 0).unwrap();
    assert_eq!(
        r,
        vec![change(utc(2019, 3, 31, 1), 7200, true, "CEST"), change(utc(2019, 10, 27, 1), 3600, false, "CET")]
    );
}

#[test]
fn current_year_follows_now() {
    let now = utc(2020, 6, 1, 12);
    let r = get_timechanges(&paris_like(), Some(0), now).unwrap();
    assert_eq!(
        r,
        vec![change(utc(2020, 3, 29, 1), 7200, true, "CEST"), change(utc(2020, 10, 25, 1), 3600, false, "CET")]
    );
}

#[test]
fn year_without_changes_gives_latest_before() {
    let r = get_timechanges(&paris_like(), Some(2000), 0).unwrap();
    assert_eq!(r, vec![change(utc(1911, 3, 10, 23), 3600, false, "CET")]);
    let r = get_timechanges(&paris_like(), Some(2030), 0).unwrap();
    assert_eq!(r, vec![change(utc(2020, 10, 25, 1), 3600, false, "CET")]);
}

#[test]
fn year_before_all_history_gives_first() {
    let r = get_timechanges(&paris_like(), Some(1800), 0).unwrap();
    assert_eq!(r, vec![change(utc(1911, 3, 10, 23), 3600, false, "CET")]);
}

#[test]
fn change_on_december_31st_falls_outside_year() {
    let mut z = paris_like();
    z.tzh_timecnt_data = vec![utc(2019, 1, 1, 12), utc(2019, 12, 31, 12)];
    z.tzh_timecnt_indices = vec![1, 2];
    let r = get_timechanges(&z, Some(2019), 0).unwrap();
    assert_eq!(r, vec![change(utc(2019, 1, 1, 12), 7200, true, "CEST")]);
}

#[test]
fn all_changes_skip_sentinel() {
    let mut z = paris_like();
    z.tzh_timecnt_data[0] = SENTINEL_TIMESTAMP;
    let r = get_timechanges(&z, None, 0).unwrap();
    assert_eq!(r.len(), 6);
    assert!(r.iter().all(|c| c.time != SENTINEL_TIMESTAMP));
    assert_eq!(r[0], change(utc(2018, 3, 25, 1), 7200, true, "CEST"));
}

#[test]
fn all_changes_without_sentinel_keep_every_entry() {
    let r = get_timechanges(&paris_like(), None, 0).unwrap();
    assert_eq!(r.len(), 7);
    assert_eq!(r[0], change(utc(1911, 3, 10, 23), 3600, false, "CET"));
    assert_eq!(r[6], change(utc(2020, 10, 25, 1), 3600, false, "CET"));
}

#[test]
fn repeated_queries_agree() {
    let z = paris_like();
    assert_eq!(get_timechanges(&z, Some(2019), 5).unwrap(), get_timechanges(&z, Some(2019), 5).unwrap());
    assert_eq!(get_timechanges(&z, None, 5).unwrap(), get_timechanges(&z, None, 5).unwrap());
}

#[test]
fn empty_table_is_no_data() {
    let z = ZoneData { tzh_timecnt_data: vec![], tzh_timecnt_indices: vec![], tzh_typecnt: vec![], tz_abbr: vec![] };
    assert_eq!(get_timechanges(&z, None, 0), Err(TzError::NoData));
    assert_eq!(get_timechanges(&z, Some(2019), 0), Err(TzError::NoData));
}

#[test]
fn missing_type_is_parse_error() {
    let mut z = paris_like();
    z.tzh_timecnt_indices[3] = 9;
    assert_eq!(get_timechanges(&z, Some(2019), 0), Err(TzError::ParseError));
    assert_eq!(get_timechanges(&z, Some(2020), 0).unwrap().len(), 2);
}

#[test]
fn year_out_of_range_is_parse_error() {
    assert_eq!(get_timechanges(&paris_like(), Some(i32::MAX), 0), Err(TzError::ParseError));
    assert_eq!(select_timechanges(&paris_like(), Some((utc(2019, 1, 1, 0), utc(2019, 12, 31, 0)))).unwrap().len(), 2);
}

#[test]
fn display_names() {
    assert_eq!(timezone_name("/usr/share/zoneinfo/Europe/Paris"), Ok(String::from("Europe/Paris")));
    assert_eq!(timezone_name("/usr/share/zoneinfo/UTC"), Ok(String::from("UTC")));
    assert_eq!(timezone_name("Europe/Paris"), Err(TzError::InvalidTimezone));
}

#[test]
fn one_change_means_no_dst() {
    let c = vec![change(utc(1970, 1, 1, 0), 0, false, "UTC")];
    let now = utc(2020, 1, 22, 14);
    let i = zone_state(String::from("UTC"), &c, now).unwrap();
    assert!(!i.dst_period);
    assert_eq!(i.dst_offset, 0);
    assert_eq!(i.dst_from, None);
    assert_eq!(i.dst_until, None);
    assert_eq!(i.raw_offset, 0);
    assert_eq!(i.utc_offset, 0);
    assert_eq!(i.datetime, now);
    assert_eq!(i.abbreviation, "UTC");
    assert_eq!(i.week_number, 4);
}

#[test]
fn two_changes_outside_dst() {
    let c = vec![change(utc(2020, 3, 29, 1), 7200, true, "CEST"), change(utc(2020, 10, 25, 1), 3600, false, "CET")];
    let now = utc(2020, 1, 22, 14);
    let i = zone_state(String::from("Europe/Paris"), &c, now).unwrap();
    assert!(!i.dst_period);
    assert_eq!(i.raw_offset, 3600);
    assert_eq!(i.dst_offset, 7200);
    assert_eq!(i.utc_offset, 3600);
    assert_eq!(i.datetime, now + 3600);
    assert_eq!(i.dst_from, Some(utc(2020, 3, 29, 1)));
    assert_eq!(i.dst_until, Some(utc(2020, 10, 25, 1)));
    assert_eq!(i.abbreviation, "CET");
    assert_eq!(i.timezone, "Europe/Paris");
    assert_eq!(i.week_number, 4);
}

#[test]
fn two_changes_inside_dst() {
    let c = vec![change(utc(2020, 3, 29, 1), 7200, true, "CEST"), change(utc(2020, 10, 25, 1), 3600, false, "CET")];
    let now = utc(2020, 7, 1, 23);
    let i = zone_state(String::from("Europe/Paris"), &c, now).unwrap();
    assert!(i.dst_period);
    assert_eq!(i.raw_offset, 3600);
    assert_eq!(i.utc_offset, 7200);
    assert_eq!(i.abbreviation, "CEST");
    // 01:00 local on Thursday 2 July 2020, ISO week 27.
    assert_eq!(i.week_number, 27);
}

#[test]
fn week_number_uses_local_date() {
    // 23:30 UTC on Sunday 5 January 2020 is Monday 6 January in +01:00: week 2.
    let c = vec![change(0, 3600, false, "CET")];
    let now = utc(2020, 1, 5, 23) + 1800;
    assert_eq!(zone_state(String::from("X"), &c, now).unwrap().week_number, 2);
    let c = vec![change(0, 0, false, "UTC")];
    assert_eq!(zone_state(String::from("X"), &c, now).unwrap().week_number, 1);
}

#[test]
fn dst_bounds_are_exclusive() {
    let c = vec![change(100, 7200, true, "CEST"), change(200, 3600, false, "CET")];
    assert!(!zone_state(String::from("X"), &c, 100).unwrap().dst_period);
    assert!(zone_state(String::from("X"), &c, 101).unwrap().dst_period);
    assert!(!zone_state(String::from("X"), &c, 200).unwrap().dst_period);
}

#[test]
fn zone_state_counts() {
    let c: Vec<Timechange> = vec![];
    assert_eq!(zone_state(String::from("X"), &c, 0).unwrap_err(), TzError::NoData);
    let c = vec![change(1, 0, false, "A"), change(2, 0, false, "B"), change(3, 0, false, "C")];
    assert_eq!(zone_state(String::from("X"), &c, 0).unwrap_err(), TzError::NoData);
}

#[test]
fn offset_out_of_range_is_parse_error() {
    let c = vec![change(0, 86400, false, "X")];
    assert_eq!(zone_state(String::from("X"), &c, 0).unwrap_err(), TzError::ParseError);
    let c = vec![change(0, 86399, false, "X")];
    assert_eq!(zone_state(String::from("X"), &c, 0).unwrap().utc_offset, 86399);
}

#[test]
fn zoneinfo_of_synthetic_zone() {
    let now = utc(2020, 1, 22, 14);
    let i = get_zoneinfo("/usr/share/zoneinfo/Europe/Paris", &paris_like(), now).unwrap();
    assert_eq!(i.timezone, "Europe/Paris");
    assert_eq!(i.dst_from, Some(utc(2020, 3, 29, 1)));
    assert_eq!(i.dst_until, Some(utc(2020, 10, 25, 1)));
    assert!(!i.dst_period);
    assert_eq!(i.abbreviation, "CET");
    assert_eq!(i.week_number, 4);
    assert_eq!(get_zoneinfo("Europe/Paris", &paris_like(), now).unwrap_err(), TzError::InvalidTimezone);
    let i = get_zoneinfo("/usr/share/zoneinfo/Europe/Paris", &paris_like(), utc(2030, 1, 1, 12)).unwrap();
    assert_eq!(i.dst_from, None);
    assert_eq!(i.raw_offset, 3600);
    assert_eq!(i.dst_offset, 0);
}

#[test]
fn state_with_given_week() {
    let c = vec![change(10, 7200, true, "CEST"), change(20, 3600, false, "CET")];
    let i = zone_state_in_week(String::from("X"), &c, 15, Some(3)).unwrap();
    assert!(i.dst_period);
    assert_eq!(i.utc_offset, 7200);
    assert_eq!(i.datetime, 7215);
    assert_eq!(i.week_number, 3);
    assert_eq!(zone_state_in_week(String::from("X"), &c, 15, None).unwrap_err(), TzError::ParseError);
    assert_eq!(local_time(&c, 25), Ok(3625));
    assert_eq!(local_time(&c, i64::MAX), Err(TzError::ParseError));
    assert_eq!(local_time(&vec![], 25), Err(TzError::NoData));
}
