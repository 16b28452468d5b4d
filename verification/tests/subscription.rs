use sailor::graph::subscription::{Subscription, DEFAULT_TIME_ZONE, MAX_AGE_SECONDS};

const DAY: i64 = 24 * 60 * 60;

fn words(seconds: i64) -> String {
    Subscription.my_age(seconds).unwrap()
}

#[test]
fn a_few_seconds_are_now() {
    assert_eq!(words(0), "now");
    assert_eq!(words(10), "now");
    assert_eq!(words(-10), "now");
}

#[test]
fn seconds_are_counted() {
    assert_eq!(words(11), "11 seconds");
    assert_eq!(words(45), "45 seconds");
}

#[test]
fn longer_spans_are_rounded() {
    assert_eq!(words(46), "a minute");
    assert_eq!(words(90), "a minute");
    assert_eq!(words(91), "2 minutes");
    assert_eq!(words(60 * 60), "an hour");
    assert_eq!(words(5 * 60 * 60), "5 hours");
    assert_eq!(words(DAY), "a day");
    assert_eq!(words(7 * DAY), "a week");
    assert_eq!(words(30 * DAY), "a month");
    assert_eq!(words(365 * DAY), "a year");
    assert_eq!(words(29 * 365 * DAY + 200 * DAY), "29 years");
}

#[test]
fn an_age_to_come_reads_like_one_that_has_passed() {
    assert_eq!(words(-5 * 60 * 60), "5 hours");
    assert_eq!(words(-3 * 365 * DAY), "3 years");
}

#[test]
fn the_longest_span_still_has_words() {
    assert_eq!(words(MAX_AGE_SECONDS), "292471208 years");
    assert_eq!(words(-MAX_AGE_SECONDS), "292471208 years");
}

#[test]
fn a_span_beyond_the_longest_has_no_words() {
    assert_eq!(Subscription.my_age(MAX_AGE_SECONDS + 1), None);
    assert_eq!(Subscription.my_age(-MAX_AGE_SECONDS - 1), None);
    assert_eq!(Subscription.my_age(i64::MAX), None);
    assert_eq!(Subscription.my_age(i64::MIN), None);
}

#[test]
fn the_default_time_zone_is_utc() {
    assert_eq!(DEFAULT_TIME_ZONE, "UTC");
}
