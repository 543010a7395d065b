use actix_treblle::clock::seconds_with_micro;
use actix_treblle::{get_seconds_with_micro, Timestamp};

fn instant(at: chrono::DateTime<chrono::Utc>) -> Timestamp {
    Timestamp::new(at.timestamp(), at.timestamp_subsec_micros())
}

#[test]
fn get_microseconds_duration() {
    let start = chrono::Utc::now();
    let end = start
        .clone()
        .checked_add_signed(chrono::Duration::microseconds(2000))
        .unwrap();

    assert_eq!(get_seconds_with_micro(instant(start), Some(instant(end))), "0.00200");

    let start = chrono::Utc::now();
    let end = start
        .clone()
        .checked_add_signed(chrono::Duration::milliseconds(200))
        .unwrap();

    assert_eq!(get_seconds_with_micro(instant(start), Some(instant(end))), "0.20000");

    let start = chrono::Utc::now();
    let end = start
        .clone()
        .checked_add_signed(chrono::Duration::seconds(500))
        .unwrap();

    assert_eq!(get_seconds_with_micro(instant(start), Some(instant(end))), "500.00000");
}

#[test]
fn elapsed_time_has_five_decimals() {
    let start = Timestamp::new(10, 999_000);
    assert_eq!(seconds_with_micro(start, Timestamp::new(10, 999_000)), "0.00000");
    assert_eq!(seconds_with_micro(start, Timestamp::new(11, 1_000)), "0.00200");
    assert_eq!(seconds_with_micro(start, Timestamp::new(11, 199_000)), "0.20000");
    assert_eq!(seconds_with_micro(start, Timestamp::new(510, 999_000)), "500.00000");
    assert_eq!(seconds_with_micro(start, Timestamp::new(12, 345_678 + 999_000 - 1_000_000)), "1.34568");
    assert_eq!(seconds_with_micro(Timestamp::new(0, 0), Timestamp::new(1234567, 891_234)), "1234567.89123");
}

#[test]
fn elapsed_time_rounds_to_the_nearest_hundred_thousandth() {
    let start = Timestamp::new(0, 0);
    assert_eq!(seconds_with_micro(start, Timestamp::new(0, 4)), "0.00000");
    assert_eq!(seconds_with_micro(start, Timestamp::new(0, 5)), "0.00001");
    assert_eq!(seconds_with_micro(start, Timestamp::new(0, 14)), "0.00001");
    assert_eq!(seconds_with_micro(start, Timestamp::new(0, 15)), "0.00002");
    assert_eq!(seconds_with_micro(start, Timestamp::new(0, 999_994)), "0.99999");
    assert_eq!(seconds_with_micro(start, Timestamp::new(0, 999_995)), "1.00000");
}

#[test]
fn elapsed_time_is_never_negative() {
    let start = Timestamp::new(100, 500);
    assert_eq!(seconds_with_micro(start, Timestamp::new(100, 499)), "0.00000");
    assert_eq!(seconds_with_micro(start, Timestamp::new(99, 999_999)), "0.00000");
    assert_eq!(seconds_with_micro(Timestamp::new(i64::MAX, 0), Timestamp::new(i64::MIN, 0)), "0.00000");
    assert_eq!(start.micros_until(Timestamp::new(100, 499)), 0);
}

#[test]
fn elapsed_time_grows_with_the_end() {
    let start = Timestamp::new(5, 0);
    let earlier = start.micros_until(Timestamp::new(6, 10));
    let later = start.micros_until(Timestamp::new(6, 11));
    assert_eq!(earlier, 1_000_010);
    assert_eq!(later, 1_000_011);
    assert!(earlier <= later);
}

#[test]
fn elapsed_time_spans_the_whole_range_of_instants() {
    let text = seconds_with_micro(Timestamp::new(i64::MIN, 0), Timestamp::new(i64::MAX, u32::MAX));
    assert_eq!(text, "18446744073709555909.96730");
    assert_eq!(
        Timestamp::new(i64::MIN, 0).micros_until(Timestamp::new(i64::MAX, u32::MAX)),
        18446744073709551615u128 * 1_000_000 + 4294967295
    );
}

#[test]
fn elapsed_time_up_to_now() {
    let start = instant(chrono::Utc::now());
    let text = get_seconds_with_micro(start, None);
    let (whole, fraction) = text.split_once('.').unwrap();
    assert_eq!(fraction.len(), 5);
    assert!(whole.chars().all(|c| c.is_ascii_digit()));
    assert!(fraction.chars().all(|c| c.is_ascii_digit()));
    assert_eq!(whole, "0");
}

#[test]
fn instants_are_written_in_utc_to_the_second() {
    assert_eq!(Timestamp::new(1431648000, 0).text(), Some("2015-05-15 00:00:00".to_string()));
    assert_eq!(Timestamp::new(0, 999_999).text(), Some("1970-01-01 00:00:00".to_string()));
    assert_eq!(Timestamp::new(951782399, 5).text(), Some("2000-02-28 23:59:59".to_string()));
    assert_eq!(Timestamp::new(-1, 0).text(), Some("1969-12-31 23:59:59".to_string()));
    assert_eq!(Timestamp::new(i64::MAX, 0).text(), None);
    assert_eq!(Timestamp::new(i64::MIN, 0).text(), None);
}
