use haushalt_frontend::task_fields::{
    bulk_field_class, day_from_input, detail_field, DetailField, interval_from_input, short_name, toggle_weekday, WEEKDAY_CHOICES,
};

#[test]
fn weekdays_stay_in_order() {
    assert_eq!(toggle_weekday(&[1, 5], 3, true), vec![1, 3, 5]);
    assert_eq!(toggle_weekday(&[5, 1], 0, true), vec![0, 1, 5]);
    assert_eq!(toggle_weekday(&[1, 5], 5, true), vec![1, 5]);
    assert_eq!(toggle_weekday(&[1, 5], 5, false), vec![1]);
}

#[test]
fn names_are_cut_to_three_characters() {
    assert_eq!(short_name("Monday"), "Mon");
    assert_eq!(short_name("Mo"), "Mo");
    assert_eq!(short_name("Dienstag"), "Die");
}

#[test]
fn numbers_typed_into_fields() {
    assert_eq!(day_from_input("6"), Some(6));
    assert_eq!(day_from_input("-1"), None);
    assert_eq!(day_from_input("300"), None);
    assert_eq!(interval_from_input("0"), Some(1));
    assert_eq!(interval_from_input("7"), Some(7));
    assert_eq!(interval_from_input(""), None);
}

#[test]
fn the_week_starts_on_monday() {
    assert_eq!(WEEKDAY_CHOICES[0], (1, "weekday.monday"));
    assert_eq!(WEEKDAY_CHOICES[6], (0, "weekday.sunday"));
    assert_eq!(bulk_field_class(true), "");
    assert_eq!(bulk_field_class(false), "field-disabled");
}

#[test]
fn each_rhythm_shows_its_detail_field() {
    assert_eq!(detail_field("weekly"), DetailField::Weekday);
    assert_eq!(detail_field("monthly"), DetailField::MonthDay);
    assert_eq!(detail_field("weekdays"), DetailField::Weekdays);
    assert_eq!(detail_field("custom"), DetailField::CustomDates);
    assert_eq!(detail_field("daily"), DetailField::NoDetail);
}
