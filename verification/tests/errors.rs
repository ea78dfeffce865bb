use forecast::error::{ConfigProblem, DecodeFault, Field, ForecastError, JsonPath, Stage};

#[test]
fn stage_labels() {
    assert_eq!(Stage::Point.request_label(), "request for point failed");
    assert_eq!(Stage::Forecast.request_label(), "request for forecast failed");
    assert_eq!(Stage::Point.decode_label(), "could not decode point");
    assert_eq!(Stage::Forecast.decode_label(), "could not decode forecast");
}

#[test]
fn field_flags_and_variables() {
    assert_eq!(Field::Latitude.flag(), "--lat");
    assert_eq!(Field::Longitude.flag(), "--lon");
    assert_eq!(Field::Units.flag(), "--units");
    assert_eq!(Field::UserAgent.flag(), "--user-agent");
    assert_eq!(Field::Latitude.variable(), "FORECAST_LATITUDE");
    assert_eq!(Field::Longitude.variable(), "FORECAST_LONGITUDE");
    assert_eq!(Field::Units.variable(), "FORECAST_UNITS");
    assert_eq!(Field::UserAgent.variable(), "FORECAST_USER_AGENT");
}

#[test]
fn json_paths_in_dotted_notation() {
    assert_eq!(JsonPath::Properties.dotted(), "properties");
    assert_eq!(JsonPath::Forecast.dotted(), "properties.forecast");
    assert_eq!(JsonPath::Periods.dotted(), "properties.periods");
    assert_eq!(JsonPath::PeriodName.dotted(), "properties.periods[].name");
    assert_eq!(JsonPath::PeriodShortForecast.dotted(), "properties.periods[].shortForecast");
    assert_eq!(
        JsonPath::PeriodDetailedForecast.dotted(),
        "properties.periods[].detailedForecast"
    );
}

#[test]
fn message_of_a_missing_value() {
    let error = ForecastError::Configuration {
        field: Field::UserAgent,
        problem: ConfigProblem::Missing,
    };
    assert_eq!(
        error.message(),
        "missing required value for --user-agent (environment variable FORECAST_USER_AGENT)"
    );
}

#[test]
fn message_of_an_invalid_value() {
    let error = ForecastError::Configuration {
        field: Field::Latitude,
        problem: ConfigProblem::Invalid,
    };
    assert_eq!(
        error.message(),
        "invalid value for --lat (environment variable FORECAST_LATITUDE)"
    );
    let error = ForecastError::Configuration {
        field: Field::Units,
        problem: ConfigProblem::Invalid,
    };
    assert_eq!(
        error.message(),
        "invalid value for --units (environment variable FORECAST_UNITS)"
    );
}

#[test]
fn message_of_a_network_error() {
    let error = ForecastError::Network {
        stage: Stage::Point,
        cause: String::from("connection refused"),
    };
    assert_eq!(error.message(), "request for point failed: connection refused");
    let error = ForecastError::Network { stage: Stage::Forecast, cause: String::from("timed out") };
    assert_eq!(error.message(), "request for forecast failed: timed out");
}

#[test]
fn message_of_a_malformed_body() {
    let error = ForecastError::Decode {
        stage: Stage::Forecast,
        fault: DecodeFault::Malformed { cause: String::from("expected value at line 1 column 1") },
    };
    assert_eq!(
        error.message(),
        "could not decode forecast: expected value at line 1 column 1"
    );
}

#[test]
fn message_of_a_missing_member() {
    let error = ForecastError::Decode {
        stage: Stage::Point,
        fault: DecodeFault::Missing { path: JsonPath::Forecast },
    };
    assert_eq!(error.message(), "could not decode point: missing properties.forecast");
    let error = ForecastError::Decode {
        stage: Stage::Point,
        fault: DecodeFault::Missing { path: JsonPath::Properties },
    };
    assert_eq!(error.message(), "could not decode point: missing properties");
}

#[test]
fn message_of_an_empty_forecast() {
    assert_eq!(ForecastError::EmptyResult.message(), "forecast has no periods");
}

#[test]
fn message_with_an_empty_cause() {
    let error = ForecastError::Network { stage: Stage::Point, cause: String::new() };
    assert_eq!(error.message(), "request for point failed: ");
}
