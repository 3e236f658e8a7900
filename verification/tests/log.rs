use chrono::Datelike;
use clemen::clock::{Date, Moment, MAX_DAY, MAX_WALL, MAX_YEAR, MIN_DAY, MIN_WALL, MIN_YEAR};
use clemen::data::{Data, Upload};

const DAY: i64 = 86_400;

/// Noon of a day counted from the first of January 2024.
fn noon(day: i64) -> Moment {
    Moment::new(1_704_067_200 + day * DAY + DAY / 2, 0, -10_800).unwrap()
}

fn log(days: &[i64]) -> Data {
    let mut data = Data::default();
    for day in days {
        data.music.push(Upload::at(*day as i32, noon(*day)));
    }
    data
}

fn kept(data: &Data) -> Vec<i32> {
    data.music.iter().map(|u| u.message).collect()
}

#[test]
fn days_are_numbered_from_the_first() {
    assert_eq!(Moment::new(0, 0, 0).unwrap().day(), 719_163);
    assert_eq!(Moment::new(-1, 0, 0).unwrap().day(), 719_162);
    assert_eq!(Moment::new(DAY - 1, 999_999_999, 0).unwrap().day(), 719_163);
    assert_eq!(Moment::new(DAY, 0, 0).unwrap().day(), 719_164);
    assert_eq!(Moment::new(MIN_WALL, 0, 0).unwrap().day(), MIN_DAY);
    assert_eq!(Moment::new(MAX_WALL, 0, 0).unwrap().day(), MAX_DAY);
    // 3 September 1999.
    assert_eq!(Moment::new(936_316_800, 0, 0).unwrap().day(), 730_000);
}

#[test]
fn the_range_of_days_is_that_of_the_calendar() {
    assert_eq!(chrono::NaiveDate::MIN.num_days_from_ce(), MIN_DAY);
    assert_eq!(chrono::NaiveDate::MAX.num_days_from_ce(), MAX_DAY);
    assert_eq!(chrono::NaiveDate::MIN.year(), MIN_YEAR);
    assert_eq!(chrono::NaiveDate::MAX.year(), MAX_YEAR);
    assert_eq!(chrono::NaiveDateTime::MIN.and_utc().timestamp(), MIN_WALL);
    assert_eq!(chrono::NaiveDateTime::MAX.and_utc().timestamp(), MAX_WALL);
}

#[test]
fn impossible_readings_make_no_moment() {
    assert!(Moment::new(MIN_WALL - 1, 0, 0).is_none());
    assert!(Moment::new(MAX_WALL + 1, 0, 0).is_none());
    assert!(Moment::new(0, 2_000_000_000, 0).is_none());
    assert!(Moment::new(0, 0, 86_400).is_none());
    assert!(Moment::new(0, 0, -86_400).is_none());
    let moment = Moment::new(5, 1_999_999_999, -86_399).unwrap();
    assert_eq!(moment.wall(), 5);
    assert_eq!(moment.nanos(), 1_999_999_999);
    assert_eq!(moment.offset(), -86_399);
}

#[test]
fn days_are_counted_by_the_calendar() {
    let late = Moment::new(DAY - 1, 0, 0).unwrap();
    let early = Moment::new(DAY, 0, 0).unwrap();
    assert_eq!(early.days_since(&late), 1);
    assert_eq!(late.days_since(&early), -1);
    assert_eq!(late.days_since(&late), 0);
    let first = Moment::new(MIN_WALL, 0, 0).unwrap();
    let last = Moment::new(MAX_WALL, 0, 0).unwrap();
    assert_eq!(last.days_since(&first), MAX_DAY as i64 - MIN_DAY as i64);
}

#[test]
fn the_clock_runs() {
    let before = chrono::Local::now();
    let now = Moment::now();
    let after = chrono::Local::now();
    let shown = |t: &chrono::DateTime<chrono::Local>| t.naive_local().and_utc().timestamp();
    assert!(shown(&before) <= now.wall() && now.wall() <= shown(&after));
    assert_eq!(now.offset(), before.offset().local_minus_utc());
    let upload = Upload::new(7);
    assert_eq!(upload.message, 7);
    assert!(upload.time.wall() >= now.wall());
}

#[test]
fn songs_are_kept_for_a_month() {
    let mut data = log(&[0, 1, 2, 30, 31]);
    data.clean_upload_at(&noon(30));
    assert_eq!(kept(&data), vec![1, 2, 30, 31]);
    data.clean_upload_at(&noon(31));
    assert_eq!(kept(&data), vec![2, 30, 31]);
    data.clean_upload_at(&noon(1_000));
    assert!(data.music.is_empty());
}

#[test]
fn cleaning_again_changes_nothing() {
    let mut data = log(&[0, 20, 40]);
    data.clean_upload_at(&noon(45));
    let once = kept(&data);
    data.clean_upload_at(&noon(45));
    assert_eq!(kept(&data), once);
    assert_eq!(once, vec![20, 40]);
}

#[test]
fn listings_reach_back_by_days() {
    let days = [70, 71, 94, 95, 99, 100, 100, 101];
    let now = noon(100);
    let mut data = log(&days);
    assert_eq!(data.upload_range_at(&now, &now, 0), vec![100, 100, 101]);
    assert_eq!(data.upload_range_at(&now, &now, 1), vec![99, 100, 100, 101]);
    assert_eq!(data.upload_range_at(&now, &now, 6), vec![94, 95, 99, 100, 100, 101]);
    assert_eq!(data.upload_range_at(&now, &now, 29), vec![71, 94, 95, 99, 100, 100, 101]);
    assert_eq!(data.upload_range_at(&now, &now, 1_000), vec![71, 94, 95, 99, 100, 100, 101]);
    assert_eq!(data.upload_range_at(&now, &now, -1), vec![101]);
    assert_eq!(data.upload_range_at(&now, &now, -2), Vec::<i32>::new());
}

#[test]
fn a_day_may_pass_between_cleaning_and_counting() {
    let mut data = log(&[71, 100]);
    let list = data.upload_range_at(&noon(100), &noon(101), 29);
    assert_eq!(list, vec![100]);
    assert_eq!(kept(&data), vec![71, 100]);
}

#[test]
fn logging_drops_old_songs() {
    let mut data = log(&[0, 50]);
    data.add_upload_at(&noon(50), Upload::at(9, noon(50)));
    assert_eq!(kept(&data), vec![50, 9]);
    assert_eq!(data.upload_range_at(&noon(50), &noon(50), 0), vec![50, 9]);
}

#[test]
fn logging_by_the_clock() {
    let mut data = log(&[0]);
    data.add_upload(Upload::new(3));
    assert_eq!(kept(&data), vec![3]);
    assert_eq!(data.upload_range(1), vec![3]);
    data.clean_upload();
    assert_eq!(kept(&data), vec![3]);
}

#[test]
fn dates_exist_or_not() {
    assert!(Date::new(2024, 2, 29).is_some());
    assert!(Date::new(2023, 2, 29).is_none());
    assert!(Date::new(1900, 2, 29).is_none());
    assert!(Date::new(2000, 2, 29).is_some());
    assert!(Date::new(-4, 2, 29).is_some());
    assert!(Date::new(2024, 4, 31).is_none());
    assert!(Date::new(2024, 0, 1).is_none());
    assert!(Date::new(2024, 13, 1).is_none());
    assert!(Date::new(2024, 1, 0).is_none());
    assert!(Date::new(MAX_YEAR + 1, 1, 1).is_none());
    assert!(Date::new(MIN_YEAR - 1, 1, 1).is_none());
}

#[test]
fn dates_are_those_of_the_calendar() {
    for year in [MIN_YEAR - 1, MIN_YEAR, -1, 0, 1, 1900, 2000, 2023, 2024, MAX_YEAR, MAX_YEAR + 1] {
        for month in 0..14 {
            for day in 0..33 {
                let there = chrono::NaiveDate::from_ymd_opt(year, month, day).is_some();
                assert_eq!(Date::new(year, month, day).is_some(), there);
            }
        }
    }
}

#[test]
fn dates_are_written_out() {
    let text = |y: i32, m: u32, d: u32| Date::new(y, m, d).unwrap().text();
    assert_eq!(text(2015, 9, 5), "2015-09-05");
    assert_eq!(text(0, 1, 1), "0000-01-01");
    assert_eq!(text(33, 12, 31), "0033-12-31");
    assert_eq!(text(9999, 12, 31), "9999-12-31");
    assert_eq!(text(10_000, 10, 10), "+10000-10-10");
    assert_eq!(text(-1, 1, 1), "-0001-01-01");
    assert_eq!(text(-307, 3, 4), "-0307-03-04");
    assert_eq!(text(MAX_YEAR, 12, 31), "+262142-12-31");
    assert_eq!(text(MIN_YEAR, 1, 1), "-262143-01-01");
    assert_eq!(Date::unknown().text(), "1970-01-01");
}

#[test]
fn a_logged_song_ends_every_listing_that_reaches_it() {
    for range in [0, 6, 29, 30, 1_000] {
        let mut data = log(&[0, 50]);
        data.add_upload_at(&noon(50), Upload::at(9, noon(50)));
        assert_eq!(data.upload_range_at(&noon(60), &noon(50), range).last(), Some(&9));
    }
}
