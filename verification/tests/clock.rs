use grin_explorer::clock::{age_seconds, block_age, day_of, relative_age, today};

#[test]
fn the_age_is_the_time_since_the_stamp() {
    assert_eq!(age_seconds(100, 160), 60);
    assert_eq!(age_seconds(160, 100), 0);
    assert_eq!(age_seconds(5, 5), 0);
    assert_eq!(age_seconds(i64::MIN, i64::MAX), u64::MAX);
    assert_eq!(age_seconds(-10, 10), 20);
}

#[test]
fn a_young_age_is_written_in_full() {
    assert_eq!(block_age(0, 9420), "2h 37m");
    assert_eq!(block_age(0, 59), "59s");
    assert_eq!(block_age(0, 0), "0s");
    assert_eq!(block_age(0, 86400 + 1), "1day 1s");
    assert_eq!(block_age(0, 2592000), "30days");
}

#[test]
fn an_old_age_is_cut_to_its_largest_unit() {
    assert_eq!(block_age(0, 2592001), "30days ago");
    assert_eq!(block_age(0, 2630016), "1month ago");
    assert_eq!(block_age(0, 3 * 2630016 + 5 * 86400), "3months ago");
    assert_eq!(block_age(0, 31557600 + 86400), "1year ago");
}

#[test]
fn the_age_label_keeps_the_first_word() {
    assert_eq!(relative_age("1month 2days 3h", 2592001), "1month ago");
    assert_eq!(relative_age("1month 2days 3h", 2592000), "1month 2days 3h");
    assert_eq!(relative_age("2months", 5260032), "2months ago");
    assert_eq!(relative_age("", 5260032), " ago");
    assert_eq!(relative_age(" 5s", 5260032), " ago");
    assert_eq!(relative_age("", 0), "");
}

#[test]
fn the_key_of_a_day_is_its_date_in_quotes() {
    assert_eq!(day_of(1431648000), Some(String::from("\"15-05-2015\"")));
    assert_eq!(day_of(1431648000 + 86399), Some(String::from("\"15-05-2015\"")));
    assert_eq!(day_of(1431648000 + 86400), Some(String::from("\"16-05-2015\"")));
    assert_eq!(day_of(0), Some(String::from("\"01-01-1970\"")));
    assert_eq!(day_of(-1), Some(String::from("\"31-12-1969\"")));
    assert_eq!(day_of(i64::MAX), None);
}

#[test]
fn today_has_a_key() {
    let key = today().unwrap();
    assert_eq!(key.len(), 12);
    assert!(key.starts_with('"'));
    assert!(key.ends_with('"'));
}
