//! Resolution of the configured values from command-line flags and
//! environment variables.

use crate::document::optional_text;
use crate::error::{text_outcome, ConfigProblem, ErrorModel, Field, ForecastError};
use crate::units::{token_meaning, UnitSystem};
use vstd::prelude::*;

verus! {

/// A coordinate as supplied by the caller.
#[derive(Clone, Debug, PartialEq, Eq)]
pub enum NumberInput {
    /// The supplied text is a number; this is its decimal rendering.
    Number(String),
    /// The supplied text is not a number.
    Unparseable,
}

/// The values that one source supplies: the command line, or the environment.
#[derive(Clone, Debug, PartialEq, Eq)]
pub struct Inputs {
    pub latitude: Option<NumberInput>,
    pub longitude: Option<NumberInput>,
    pub units: Option<String>,
    pub user_agent: Option<String>,
}

/// The resolved configuration of a lookup.
#[derive(Clone, Debug, PartialEq, Eq)]
pub struct Settings {
    /// Decimal rendering of the latitude.
    pub latitude: String,
    /// Decimal rendering of the longitude.
    pub longitude: String,
    pub units: UnitSystem,
    /// Sent verbatim as the `User-Agent` header of every request.
    pub user_agent: String,
}

/// Mathematical model of a [`NumberInput`].
pub enum NumberModel {
    Number(Seq<char>),
    Unparseable,
}

/// Mathematical model of an [`Inputs`].
pub struct InputsModel {
    pub latitude: Option<NumberModel>,
    pub longitude: Option<NumberModel>,
    pub units: Option<Seq<char>>,
    pub user_agent: Option<Seq<char>>,
}

/// Mathematical model of a [`Settings`].
pub struct SettingsModel {
    pub latitude: Seq<char>,
    pub longitude: Seq<char>,
    pub units: UnitSystem,
    pub user_agent: Seq<char>,
}

impl View for NumberInput {
    type V = NumberModel;

    open spec fn view(&self) -> NumberModel {
        match self {
            NumberInput::Number(text) => NumberModel::Number(text@),
            NumberInput::Unparseable => NumberModel::Unparseable,
        }
    }
}

/// The model of an optional coordinate.
pub open spec fn optional_number(number: Option<NumberInput>) -> Option<NumberModel> {
    match number {
        Some(n) => Some(n@),
        None => None,
    }
}

impl View for Inputs {
    type V = InputsModel;

    open spec fn view(&self) -> InputsModel {
        InputsModel {
            latitude: optional_number(self.latitude),
            longitude: optional_number(self.longitude),
            units: optional_text(self.units),
            user_agent: optional_text(self.user_agent),
        }
    }
}

impl View for Settings {
    type V = SettingsModel;

    open spec fn view(&self) -> SettingsModel {
        SettingsModel {
            latitude: self.latitude@,
            longitude: self.longitude@,
            units: self.units,
            user_agent: self.user_agent@,
        }
    }
}

/// The value that counts when a flag and an environment variable may both
/// supply one: the flag's, and the variable's only where the flag is absent.
pub open spec fn chosen<T>(flag: Option<T>, variable: Option<T>) -> Option<T> {
    if flag is Some {
        flag
    } else {
        variable
    }
}

/// The values that count, field by field, when both sources are consulted.
pub open spec fn merged(flags: InputsModel, env: InputsModel) -> InputsModel {
    InputsModel {
        latitude: chosen(flags.latitude, env.latitude),
        longitude: chosen(flags.longitude, env.longitude),
        units: chosen(flags.units, env.units),
        user_agent: chosen(flags.user_agent, env.user_agent),
    }
}

/// A coordinate must be supplied and must be a number.
pub open spec fn coordinate(field: Field, supplied: Option<NumberModel>) -> Result<
    Seq<char>,
    ErrorModel,
> {
    match supplied {
        None => Err(ErrorModel::Configuration { field, problem: ConfigProblem::Missing }),
        Some(NumberModel::Unparseable) => Err(
            ErrorModel::Configuration { field, problem: ConfigProblem::Invalid },
        ),
        Some(NumberModel::Number(text)) => Ok(text),
    }
}

/// The unit system defaults to imperial; a supplied token must name one.
pub open spec fn units_choice(supplied: Option<Seq<char>>) -> Result<UnitSystem, ErrorModel> {
    match supplied {
        None => Ok(UnitSystem::Imperial),
        Some(token) => match token_meaning(token) {
            Some(system) => Ok(system),
            None => Err(
                ErrorModel::Configuration { field: Field::Units, problem: ConfigProblem::Invalid },
            ),
        },
    }
}

/// The user agent must be supplied.
pub open spec fn agent_choice(supplied: Option<Seq<char>>) -> Result<Seq<char>, ErrorModel> {
    match supplied {
        None => Err(
            ErrorModel::Configuration { field: Field::UserAgent, problem: ConfigProblem::Missing },
        ),
        Some(text) => Ok(text),
    }
}

/// The configuration that a single set of values amounts to. The fields are
/// examined in the order latitude, longitude, units, user agent, and the first
/// one at fault is reported.
pub open spec fn settings_of(values: InputsModel) -> Result<SettingsModel, ErrorModel> {
    match coordinate(Field::Latitude, values.latitude) {
        Err(error) => Err(error),
        Ok(latitude) => match coordinate(Field::Longitude, values.longitude) {
            Err(error) => Err(error),
            Ok(longitude) => match units_choice(values.units) {
                Err(error) => Err(error),
                Ok(units) => match agent_choice(values.user_agent) {
                    Err(error) => Err(error),
                    Ok(user_agent) => Ok(SettingsModel { latitude, longitude, units, user_agent }),
                },
            },
        },
    }
}

/// The configuration that flags and environment amount to together.
pub open spec fn resolution(flags: InputsModel, env: InputsModel) -> Result<
    SettingsModel,
    ErrorModel,
> {
    settings_of(merged(flags, env))
}

/// The model of resolved settings or the failure in their place.
pub open spec fn settings_outcome(outcome: Result<Settings, ForecastError>) -> Result<
    SettingsModel,
    ErrorModel,
> {
    match outcome {
        Ok(settings) => Ok(settings@),
        Err(error) => Err(error@),
    }
}

/// Picks the flag's value, or the environment's where the flag is absent.
pub fn prefer<'a, T>(flag: &'a Option<T>, variable: &'a Option<T>) -> (choice: &'a Option<T>)
    ensures
        *choice == chosen(*flag, *variable),
{
    match flag {
        Some(_) => flag,
        None => variable,
    }
}

fn resolve_coordinate(field: Field, supplied: &Option<NumberInput>) -> (outcome: Result<
    String,
    ForecastError,
>)
    ensures
        text_outcome(outcome) == coordinate(field, optional_number(*supplied)),
{
    match supplied {
        None => Err(ForecastError::Configuration { field, problem: ConfigProblem::Missing }),
        Some(NumberInput::Unparseable) => Err(
            ForecastError::Configuration { field, problem: ConfigProblem::Invalid },
        ),
        Some(NumberInput::Number(text)) => Ok(text.clone()),
    }
}

/// Resolves the configuration from the values given on the command line and
/// those found in the environment. A flag takes precedence over its
/// environment variable; latitude, longitude and user agent are required;
/// the unit system defaults to imperial.
pub fn resolve(flags: &Inputs, env: &Inputs) -> (outcome: Result<Settings, ForecastError>)
    ensures
        settings_outcome(outcome) == resolution(flags@, env@),
{
    let latitude = match resolve_coordinate(
        Field::Latitude,
        prefer(&flags.latitude, &env.latitude),
    ) {
        Ok(text) => text,
        Err(error) => { return Err(error); },
    };
    let longitude = match resolve_coordinate(
        Field::Longitude,
        prefer(&flags.longitude, &env.longitude),
    ) {
        Ok(text) => text,
        Err(error) => { return Err(error); },
    };
    let units = match prefer(&flags.units, &env.units) {
        None => UnitSystem::default(),
        Some(token) => match UnitSystem::from_token(token.as_str()) {
            Some(system) => system,
            None => {
                return Err(
                    ForecastError::Configuration {
                        field: Field::Units,
                        problem: ConfigProblem::Invalid,
                    },
                );
            },
        },
    };
    let user_agent = match prefer(&flags.user_agent, &env.user_agent) {
        Some(text) => text.clone(),
        None => {
            return Err(
                ForecastError::Configuration {
                    field: Field::UserAgent,
                    problem: ConfigProblem::Missing,
                },
            );
        },
    };
    Ok(Settings { latitude, longitude, units, user_agent })
}

/// Where the command line supplies a value, the environment's value for the
/// same field has no effect.
pub proof fn lemma_flag_takes_precedence(flags: InputsModel, env: InputsModel, other: InputsModel)
    requires
        flags.latitude is None ==> env.latitude == other.latitude,
        flags.longitude is None ==> env.longitude == other.longitude,
        flags.units is None ==> env.units == other.units,
        flags.user_agent is None ==> env.user_agent == other.user_agent,
    ensures
        resolution(flags, env) == resolution(flags, other),
{
    assert(merged(flags, env) == merged(flags, other));
}

/// Without a user agent from either source there is no configuration: the
/// resolution fails, and it names the user agent once the other fields are in
/// order.
pub proof fn lemma_user_agent_required(flags: InputsModel, env: InputsModel)
    requires
        flags.user_agent is None,
        env.user_agent is None,
    ensures
        resolution(flags, env) matches Err(ErrorModel::Configuration { .. }),
        ({
            let values = merged(flags, env);
            &&& coordinate(Field::Latitude, values.latitude) is Ok
            &&& coordinate(Field::Longitude, values.longitude) is Ok
            &&& units_choice(values.units) is Ok
        }) ==> resolution(flags, env) == Err::<SettingsModel, ErrorModel>(
            ErrorModel::Configuration { field: Field::UserAgent, problem: ConfigProblem::Missing },
        ),
{
}

/// A resolution succeeds exactly when both coordinates are numbers, the unit
/// token, if any, names a unit system, and a user agent is supplied.
pub proof fn lemma_resolution_succeeds(flags: InputsModel, env: InputsModel)
    ensures
        resolution(flags, env) is Ok <==> ({
            let values = merged(flags, env);
            &&& values.latitude matches Some(NumberModel::Number(_))
            &&& values.longitude matches Some(NumberModel::Number(_))
            &&& (values.units matches Some(token) ==> token_meaning(token) is Some)
            &&& values.user_agent is Some
        }),
{
}

} // verus!
