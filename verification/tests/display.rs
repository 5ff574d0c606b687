use minute_clock::display::{label_row, WallClock, TEXT_ROWS};

#[test]
fn label_in_the_afternoon() {
    assert_eq!(WallClock::new(15, 7).unwrap().label(), "03:07 PM");
    assert_eq!(WallClock::new(23, 59).unwrap().label(), "11:59 PM");
}

#[test]
fn label_in_the_morning() {
    assert_eq!(WallClock::new(9, 5).unwrap().label(), "09:05 AM");
    assert_eq!(WallClock::new(11, 59).unwrap().label(), "11:59 AM");
    assert_eq!(WallClock::new(1, 0).unwrap().label(), "01:00 AM");
}

#[test]
fn label_at_midnight_and_noon_shows_twelve() {
    assert_eq!(WallClock::new(0, 0).unwrap().label(), "12:00 AM");
    assert_eq!(WallClock::new(0, 30).unwrap().label(), "12:30 AM");
    assert_eq!(WallClock::new(12, 0).unwrap().label(), "12:00 PM");
    assert_eq!(WallClock::new(12, 45).unwrap().label(), "12:45 PM");
}

#[test]
fn label_of_every_minute_of_the_day() {
    for hour in 0..24u32 {
        for minute in 0..60u32 {
            let shown = if hour % 12 == 0 { 12 } else { hour % 12 };
            let half = if hour < 12 { "AM" } else { "PM" };
            let expected = format!("{:02}:{:02} {}", shown, minute, half);
            let label = WallClock::new(hour, minute).unwrap().label();
            assert_eq!(label, expected);
            assert_eq!(label.len(), 8);
        }
    }
}

#[test]
fn label_is_what_chrono_writes_for_the_time() {
    let time = chrono::NaiveTime::from_hms_opt(17, 42, 13).unwrap();
    assert_eq!(
        WallClock::new(17, 42).unwrap().label(),
        time.format("%I:%M %p").to_string()
    );
}

#[test]
fn hour_from_24_on_is_no_time() {
    assert_eq!(WallClock::new(24, 0), None);
    assert_eq!(WallClock::new(u32::MAX, 0), None);
}

#[test]
fn minute_from_60_on_is_no_time() {
    assert_eq!(WallClock::new(0, 60), None);
    assert_eq!(WallClock::new(23, u32::MAX), None);
}

#[test]
fn last_minute_of_the_day_is_a_time() {
    assert!(WallClock::new(23, 59).is_some());
    assert!(WallClock::new(0, 0).is_some());
}

#[test]
fn label_row_is_half_of_the_free_rows() {
    assert_eq!(TEXT_ROWS, 5);
    assert_eq!(label_row(24), 9);
    assert_eq!(label_row(25), 10);
    assert_eq!(label_row(7), 1);
    assert_eq!(label_row(6), 0);
    assert_eq!(label_row(u16::MAX), 32_765);
}

#[test]
fn label_row_is_the_top_where_nothing_is_free() {
    assert_eq!(label_row(5), 0);
    assert_eq!(label_row(4), 0);
    assert_eq!(label_row(0), 0);
}
