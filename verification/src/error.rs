//! The ways a forecast lookup can fail, and the message shown for each.

use vstd::prelude::*;

verus! {

/// The two network exchanges of a lookup.
#[derive(Clone, Copy, Debug, PartialEq, Eq, Structural)]
pub enum Stage {
    /// Resolving the coordinates to a forecast-grid endpoint.
    Point,
    /// Fetching the gridpoint forecast itself.
    Forecast,
}

/// The values a caller configures.
#[derive(Clone, Copy, Debug, PartialEq, Eq, Structural)]
pub enum Field {
    Latitude,
    Longitude,
    Units,
    UserAgent,
}

/// What is wrong with a configured value.
#[derive(Clone, Copy, Debug, PartialEq, Eq, Structural)]
pub enum ConfigProblem {
    /// Neither the flag nor the environment variable supplies it.
    Missing,
    /// A value was supplied but cannot be used.
    Invalid,
}

/// A place in a response body that must hold a value.
#[derive(Clone, Copy, Debug, PartialEq, Eq, Structural)]
pub enum JsonPath {
    Properties,
    Forecast,
    Periods,
    PeriodName,
    PeriodShortForecast,
    PeriodDetailedForecast,
}

/// Why a response body could not be used.
#[derive(Clone, Debug, PartialEq, Eq)]
pub enum DecodeFault {
    /// The body is not JSON of the expected shape; `cause` is the decoder's report.
    Malformed { cause: String },
    /// The body decoded, but nothing stands at `path`.
    Missing { path: JsonPath },
}

/// Every failure of a lookup.
#[derive(Clone, Debug, PartialEq, Eq)]
pub enum ForecastError {
    /// A required value is missing or unusable.
    Configuration { field: Field, problem: ConfigProblem },
    /// The request of `stage` did not complete; `cause` is the transport's report.
    Network { stage: Stage, cause: String },
    /// The response of `stage` could not be used.
    Decode { stage: Stage, fault: DecodeFault },
    /// The forecast decoded but lists no periods.
    EmptyResult,
}

/// Mathematical model of a [`DecodeFault`].
pub enum DecodeFaultModel {
    Malformed { cause: Seq<char> },
    Missing { path: JsonPath },
}

/// Mathematical model of a [`ForecastError`].
pub enum ErrorModel {
    Configuration { field: Field, problem: ConfigProblem },
    Network { stage: Stage, cause: Seq<char> },
    Decode { stage: Stage, fault: DecodeFaultModel },
    EmptyResult,
}

impl View for DecodeFault {
    type V = DecodeFaultModel;

    open spec fn view(&self) -> DecodeFaultModel {
        match self {
            DecodeFault::Malformed { cause } => DecodeFaultModel::Malformed { cause: cause@ },
            DecodeFault::Missing { path } => DecodeFaultModel::Missing { path: *path },
        }
    }
}

impl View for ForecastError {
    type V = ErrorModel;

    open spec fn view(&self) -> ErrorModel {
        match self {
            ForecastError::Configuration { field, problem } => ErrorModel::Configuration {
                field: *field,
                problem: *problem,
            },
            ForecastError::Network { stage, cause } => ErrorModel::Network {
                stage: *stage,
                cause: cause@,
            },
            ForecastError::Decode { stage, fault } => ErrorModel::Decode {
                stage: *stage,
                fault: fault@,
            },
            ForecastError::EmptyResult => ErrorModel::EmptyResult,
        }
    }
}

/// The model of a text or the failure in its place.
pub open spec fn text_outcome(outcome: Result<String, ForecastError>) -> Result<
    Seq<char>,
    ErrorModel,
> {
    match outcome {
        Ok(text) => Ok(text@),
        Err(error) => Err(error@),
    }
}

impl Stage {
    /// Label of a request that did not complete.
    pub open spec fn request_label_text(self) -> Seq<char> {
        match self {
            Stage::Point => "request for point failed"@,
            Stage::Forecast => "request for forecast failed"@,
        }
    }

    /// Label of a response that could not be used.
    pub open spec fn decode_label_text(self) -> Seq<char> {
        match self {
            Stage::Point => "could not decode point"@,
            Stage::Forecast => "could not decode forecast"@,
        }
    }

    /// Returns the label of a request of this stage that did not complete.
    pub fn request_label(self) -> (text: &'static str)
        ensures
            text@ == self.request_label_text(),
    {
        match self {
            Stage::Point => "request for point failed",
            Stage::Forecast => "request for forecast failed",
        }
    }

    /// Returns the label of a response of this stage that could not be used.
    pub fn decode_label(self) -> (text: &'static str)
        ensures
            text@ == self.decode_label_text(),
    {
        match self {
            Stage::Point => "could not decode point",
            Stage::Forecast => "could not decode forecast",
        }
    }
}

impl Field {
    /// The command-line flag that supplies this value.
    pub open spec fn flag_text(self) -> Seq<char> {
        match self {
            Field::Latitude => "--lat"@,
            Field::Longitude => "--lon"@,
            Field::Units => "--units"@,
            Field::UserAgent => "--user-agent"@,
        }
    }

    /// The environment variable that supplies this value when the flag is absent.
    pub open spec fn variable_text(self) -> Seq<char> {
        match self {
            Field::Latitude => "FORECAST_LATITUDE"@,
            Field::Longitude => "FORECAST_LONGITUDE"@,
            Field::Units => "FORECAST_UNITS"@,
            Field::UserAgent => "FORECAST_USER_AGENT"@,
        }
    }

    /// Returns the command-line flag that supplies this value.
    pub fn flag(self) -> (text: &'static str)
        ensures
            text@ == self.flag_text(),
    {
        match self {
            Field::Latitude => "--lat",
            Field::Longitude => "--lon",
            Field::Units => "--units",
            Field::UserAgent => "--user-agent",
        }
    }

    /// Returns the environment variable consulted when the flag is absent.
    pub fn variable(self) -> (text: &'static str)
        ensures
            text@ == self.variable_text(),
    {
        match self {
            Field::Latitude => "FORECAST_LATITUDE",
            Field::Longitude => "FORECAST_LONGITUDE",
            Field::Units => "FORECAST_UNITS",
            Field::UserAgent => "FORECAST_USER_AGENT",
        }
    }
}

impl ConfigProblem {
    /// The opening words of the message for this problem.
    pub open spec fn opening_text(self) -> Seq<char> {
        match self {
            ConfigProblem::Missing => "missing required value for "@,
            ConfigProblem::Invalid => "invalid value for "@,
        }
    }

    /// Returns the opening words of the message for this problem.
    pub fn opening(self) -> (text: &'static str)
        ensures
            text@ == self.opening_text(),
    {
        match self {
            ConfigProblem::Missing => "missing required value for ",
            ConfigProblem::Invalid => "invalid value for ",
        }
    }
}

impl JsonPath {
    /// The path in dotted notation.
    pub open spec fn dotted_text(self) -> Seq<char> {
        match self {
            JsonPath::Properties => "properties"@,
            JsonPath::Forecast => "properties.forecast"@,
            JsonPath::Periods => "properties.periods"@,
            JsonPath::PeriodName => "properties.periods[].name"@,
            JsonPath::PeriodShortForecast => "properties.periods[].shortForecast"@,
            JsonPath::PeriodDetailedForecast => "properties.periods[].detailedForecast"@,
        }
    }

    /// Returns the path in dotted notation.
    pub fn dotted(self) -> (text: &'static str)
        ensures
            text@ == self.dotted_text(),
    {
        match self {
            JsonPath::Properties => "properties",
            JsonPath::Forecast => "properties.forecast",
            JsonPath::Periods => "properties.periods",
            JsonPath::PeriodName => "properties.periods[].name",
            JsonPath::PeriodShortForecast => "properties.periods[].shortForecast",
            JsonPath::PeriodDetailedForecast => "properties.periods[].detailedForecast",
        }
    }
}

impl ErrorModel {
    /// The message shown to the user: what failed, at which stage, and why.
    pub open spec fn message(self) -> Seq<char> {
        match self {
            ErrorModel::Configuration { field, problem } => problem.opening_text()
                + field.flag_text() + " (environment variable "@ + field.variable_text() + ")"@,
            ErrorModel::Network { stage, cause } => stage.request_label_text() + ": "@ + cause,
            ErrorModel::Decode { stage, fault: DecodeFaultModel::Malformed { cause } } =>
                stage.decode_label_text() + ": "@ + cause,
            ErrorModel::Decode { stage, fault: DecodeFaultModel::Missing { path } } =>
                stage.decode_label_text() + ": missing "@ + path.dotted_text(),
            ErrorModel::EmptyResult => "forecast has no periods"@,
        }
    }
}

impl ForecastError {
    /// Renders the message shown to the user.
    pub fn message(&self) -> (text: String)
        ensures
            text@ == self@.message(),
    {
        match self {
            ForecastError::Configuration { field, problem } => {
                let mut text = String::from_str(problem.opening());
                text.append(field.flag());
                text.append(" (environment variable ");
                text.append(field.variable());
                text.append(")");
                text
            },
            ForecastError::Network { stage, cause } => {
                let mut text = String::from_str(stage.request_label());
                text.append(": ");
                text.append(cause.as_str());
                text
            },
            ForecastError::Decode { stage, fault: DecodeFault::Malformed { cause } } => {
                let mut text = String::from_str(stage.decode_label());
                text.append(": ");
                text.append(cause.as_str());
                text
            },
            ForecastError::Decode { stage, fault: DecodeFault::Missing { path } } => {
                let mut text = String::from_str(stage.decode_label());
                text.append(": missing ");
                text.append(path.dotted());
                text
            },
            ForecastError::EmptyResult => String::from_str("forecast has no periods"),
        }
    }
}

} // verus!
