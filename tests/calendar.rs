use order_costing::calendar::MyDateTime;
use order_costing::money::Decimal;

#[test]
fn weekdays_from_monday() {
    assert_eq!(MyDateTime::from_parts(2021, 3, 15, 0, 0, 0).unwrap().weekday(), 0);
    assert_eq!(MyDateTime::from_parts(2021, 3, 16, 12, 0, 0).unwrap().weekday(), 1);
    assert_eq!(MyDateTime::from_parts(2021, 3, 20, 12, 0, 0).unwrap().weekday(), 5);
    assert_eq!(MyDateTime::from_parts(2021, 3, 21, 23, 59, 59).unwrap().weekday(), 6);
}

#[test]
fn invalid_dates_are_refused() {
    assert!(MyDateTime::from_parts(2021, 2, 29, 0, 0, 0).is_none());
    assert!(MyDateTime::from_parts(2020, 2, 29, 0, 0, 0).is_some());
    assert!(MyDateTime::from_parts(1900, 2, 29, 0, 0, 0).is_none());
    assert!(MyDateTime::from_parts(2000, 2, 29, 0, 0, 0).is_some());
    assert!(MyDateTime::from_parts(2021, 4, 31, 0, 0, 0).is_none());
    assert!(MyDateTime::from_parts(2021, 13, 1, 0, 0, 0).is_none());
    assert!(MyDateTime::from_parts(2021, 3, 0, 0, 0, 0).is_none());
    assert!(MyDateTime::from_parts(2021, 3, 1, 24, 0, 0).is_none());
    assert!(MyDateTime::from_parts(262143, 1, 1, 0, 0, 0).is_none());
    assert!(MyDateTime::from_parts(262142, 12, 31, 0, 0, 0).is_some());
}

#[test]
fn with_day_and_with_hour() {
    let d = MyDateTime::from_parts(2021, 4, 28, 10, 30, 0).unwrap();
    assert_eq!(d.with_day(30).unwrap().day, 30);
    assert!(d.with_day(31).is_none());
    assert_eq!(d.with_hour(23).unwrap().hour, 23);
    assert_eq!(d.with_hour(23).unwrap().minute, 30);
    assert!(d.with_hour(24).is_none());
}

#[test]
fn decimal_values() {
    assert!(Decimal::new(12_500, 2).same_value(&Decimal::new(125, 0)));
    assert!(!Decimal::new(12_501, 2).same_value(&Decimal::new(125, 0)));
    assert!(Decimal::new(-5, 1).same_value(&Decimal::new(-50, 2)));
    assert!(Decimal::from_int(3).exceeds_whole(2));
    assert!(!Decimal::new(2000, 3).exceeds_whole(2));
    assert_eq!(Decimal::new(15, 1).scaled(13, 1), Decimal::new(195, 2));
    assert_eq!(Decimal::new(15, 1).plus_whole(1000), Decimal::new(10_015, 1));
}
