use forecast::document::{ForecastDocument, ForecastPeriod};
use forecast::error::ForecastError;
use forecast::present::{render, render_period, DisplayPolicy, FieldSet, PeriodCount};

fn period(name: &str, short: &str, detailed: &str) -> ForecastPeriod {
    ForecastPeriod {
        name: String::from(name),
        short_forecast: String::from(short),
        detailed_forecast: String::from(detailed),
    }
}

fn week() -> ForecastDocument {
    ForecastDocument {
        periods: vec![
            period("Today", "Sunny", "Sunny, with a high near 70."),
            period("Tonight", "Clear", "Clear, with a low around 50."),
            period("Monday", "Rain", "Rain likely."),
            period("Monday Night", "Cloudy", "Mostly cloudy."),
            period("Tuesday", "Windy", "Windy, gusts to 40 mph."),
        ],
    }
}

const FULL_THREE: DisplayPolicy =
    DisplayPolicy { count: PeriodCount::FirstThree, fields: FieldSet::NameShortAndDetail };
const BRIEF_THREE: DisplayPolicy =
    DisplayPolicy { count: PeriodCount::FirstThree, fields: FieldSet::NameAndDetail };
const FULL_ONE: DisplayPolicy =
    DisplayPolicy { count: PeriodCount::First, fields: FieldSet::NameShortAndDetail };
const BRIEF_ONE: DisplayPolicy =
    DisplayPolicy { count: PeriodCount::First, fields: FieldSet::NameAndDetail };

#[test]
fn limits_of_the_period_counts() {
    assert_eq!(PeriodCount::First.max_periods(), 1);
    assert_eq!(PeriodCount::FirstThree.max_periods(), 3);
}

#[test]
fn one_period_with_short_forecast() {
    let today = period("Today", "Sunny", "Sunny, with a high near 70.");
    assert_eq!(
        render_period(&today, FieldSet::NameShortAndDetail),
        "Today: Sunny\n  Sunny, with a high near 70.\n\n"
    );
}

#[test]
fn one_period_without_short_forecast() {
    let today = period("Today", "Sunny", "Sunny, with a high near 70.");
    assert_eq!(
        render_period(&today, FieldSet::NameAndDetail),
        "Today\n  Sunny, with a high near 70.\n\n"
    );
}

#[test]
fn first_three_of_five_periods_are_shown_in_order() {
    assert_eq!(
        render(&week(), FULL_THREE),
        Ok(String::from(
            "Today: Sunny\n  Sunny, with a high near 70.\n\n\
             Tonight: Clear\n  Clear, with a low around 50.\n\n\
             Monday: Rain\n  Rain likely.\n\n"
        ))
    );
}

#[test]
fn periods_past_the_third_are_never_shown() {
    let text = render(&week(), FULL_THREE).unwrap();
    assert!(!text.contains("Monday Night"));
    assert!(!text.contains("Tuesday"));
    assert!(!text.contains("Windy"));
    let mut changed = week();
    changed.periods[3] = period("Later", "Other", "Something else.");
    changed.periods.truncate(4);
    assert_eq!(render(&changed, FULL_THREE).unwrap(), text);
}

#[test]
fn first_three_without_short_forecast() {
    assert_eq!(
        render(&week(), BRIEF_THREE),
        Ok(String::from(
            "Today\n  Sunny, with a high near 70.\n\n\
             Tonight\n  Clear, with a low around 50.\n\n\
             Monday\n  Rain likely.\n\n"
        ))
    );
}

#[test]
fn exactly_three_periods_are_all_shown() {
    let mut three = week();
    three.periods.truncate(3);
    assert_eq!(render(&three, FULL_THREE), render(&week(), FULL_THREE));
}

#[test]
fn fewer_periods_than_the_limit_are_all_shown() {
    let mut two = week();
    two.periods.truncate(2);
    assert_eq!(
        render(&two, FULL_THREE),
        Ok(String::from(
            "Today: Sunny\n  Sunny, with a high near 70.\n\n\
             Tonight: Clear\n  Clear, with a low around 50.\n\n"
        ))
    );
}

#[test]
fn first_period_only() {
    assert_eq!(
        render(&week(), FULL_ONE),
        Ok(String::from("Today: Sunny\n  Sunny, with a high near 70.\n\n"))
    );
    assert_eq!(
        render(&week(), BRIEF_ONE),
        Ok(String::from("Today\n  Sunny, with a high near 70.\n\n"))
    );
}

#[test]
fn single_period_under_either_count() {
    let one =
        ForecastDocument { periods: vec![period("Today", "Sunny", "Sunny, with a high near 70.")] };
    assert_eq!(render(&one, FULL_ONE), render(&one, FULL_THREE));
    assert_eq!(
        render(&one, FULL_THREE),
        Ok(String::from("Today: Sunny\n  Sunny, with a high near 70.\n\n"))
    );
}

#[test]
fn forecast_without_periods_is_an_error() {
    let none = ForecastDocument { periods: vec![] };
    assert_eq!(render(&none, FULL_THREE), Err(ForecastError::EmptyResult));
    assert_eq!(render(&none, BRIEF_THREE), Err(ForecastError::EmptyResult));
    assert_eq!(render(&none, FULL_ONE), Err(ForecastError::EmptyResult));
    assert_eq!(render(&none, BRIEF_ONE), Err(ForecastError::EmptyResult));
}

#[test]
fn texts_are_shown_verbatim() {
    let odd = period("N\u{e4}chste Woche", "a: b", "line one\nline two");
    assert_eq!(
        render_period(&odd, FieldSet::NameShortAndDetail),
        "N\u{e4}chste Woche: a: b\n  line one\nline two\n\n"
    );
}
