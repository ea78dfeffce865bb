use forecast::config::{prefer, resolve, Inputs, NumberInput, Settings};
use forecast::error::{ConfigProblem, Field, ForecastError};
use forecast::units::UnitSystem;

fn number(text: &str) -> Option<NumberInput> {
    Some(NumberInput::Number(String::from(text)))
}

fn text(value: &str) -> Option<String> {
    Some(String::from(value))
}

fn nothing() -> Inputs {
    Inputs { latitude: None, longitude: None, units: None, user_agent: None }
}

fn complete() -> Inputs {
    Inputs {
        latitude: number("39.7456"),
        longitude: number("-97.0892"),
        units: text("si"),
        user_agent: text("test"),
    }
}

fn config_error(field: Field, problem: ConfigProblem) -> Result<Settings, ForecastError> {
    Err(ForecastError::Configuration { field, problem })
}

#[test]
fn flag_is_preferred_to_the_variable() {
    assert_eq!(prefer(&Some(1u8), &Some(2u8)), &Some(1u8));
    assert_eq!(prefer(&Some(1u8), &None), &Some(1u8));
    assert_eq!(prefer(&None, &Some(2u8)), &Some(2u8));
    assert_eq!(prefer::<u8>(&None, &None), &None);
}

#[test]
fn flags_alone_resolve() {
    assert_eq!(
        resolve(&complete(), &nothing()),
        Ok(Settings {
            latitude: String::from("39.7456"),
            longitude: String::from("-97.0892"),
            units: UnitSystem::Metric,
            user_agent: String::from("test"),
        })
    );
}

#[test]
fn environment_alone_resolves() {
    assert_eq!(resolve(&nothing(), &complete()), resolve(&complete(), &nothing()));
}

#[test]
fn flags_take_precedence_field_by_field() {
    let flags = Inputs {
        latitude: number("1.5"),
        longitude: None,
        units: text("us"),
        user_agent: None,
    };
    assert_eq!(
        resolve(&flags, &complete()),
        Ok(Settings {
            latitude: String::from("1.5"),
            longitude: String::from("-97.0892"),
            units: UnitSystem::Imperial,
            user_agent: String::from("test"),
        })
    );
}

#[test]
fn negative_coordinates_resolve_as_numbers() {
    let flags = Inputs {
        latitude: number("-12.5"),
        longitude: number("-34.2"),
        units: None,
        user_agent: text("test"),
    };
    let settings = resolve(&flags, &nothing()).unwrap();
    assert_eq!(settings.latitude, "-12.5");
    assert_eq!(settings.longitude, "-34.2");
}

#[test]
fn units_default_to_imperial() {
    let mut flags = complete();
    flags.units = None;
    assert_eq!(resolve(&flags, &nothing()).unwrap().units, UnitSystem::Imperial);
}

#[test]
fn units_from_the_environment() {
    let mut flags = complete();
    flags.units = None;
    let mut env = nothing();
    env.units = text("si");
    assert_eq!(resolve(&flags, &env).unwrap().units, UnitSystem::Metric);
}

#[test]
fn units_in_upper_case() {
    let mut flags = complete();
    flags.units = text("SI");
    assert_eq!(resolve(&flags, &nothing()).unwrap().units, UnitSystem::Metric);
}

#[test]
fn unknown_units_are_invalid() {
    let mut flags = complete();
    flags.units = text("metric");
    assert_eq!(resolve(&flags, &nothing()), config_error(Field::Units, ConfigProblem::Invalid));
    flags.units = text("");
    assert_eq!(resolve(&flags, &nothing()), config_error(Field::Units, ConfigProblem::Invalid));
}

#[test]
fn invalid_units_flag_is_not_rescued_by_the_environment() {
    let mut flags = complete();
    flags.units = text("kelvin");
    assert_eq!(resolve(&flags, &complete()), config_error(Field::Units, ConfigProblem::Invalid));
}

#[test]
fn missing_latitude() {
    let mut flags = complete();
    flags.latitude = None;
    assert_eq!(resolve(&flags, &nothing()), config_error(Field::Latitude, ConfigProblem::Missing));
}

#[test]
fn missing_longitude() {
    let mut flags = complete();
    flags.longitude = None;
    assert_eq!(resolve(&flags, &nothing()), config_error(Field::Longitude, ConfigProblem::Missing));
}

#[test]
fn missing_user_agent() {
    let mut flags = complete();
    flags.user_agent = None;
    assert_eq!(resolve(&flags, &nothing()), config_error(Field::UserAgent, ConfigProblem::Missing));
}

#[test]
fn unparseable_latitude() {
    let mut flags = complete();
    flags.latitude = Some(NumberInput::Unparseable);
    assert_eq!(resolve(&flags, &nothing()), config_error(Field::Latitude, ConfigProblem::Invalid));
}

#[test]
fn unparseable_longitude() {
    let mut flags = complete();
    flags.longitude = Some(NumberInput::Unparseable);
    assert_eq!(resolve(&flags, &nothing()), config_error(Field::Longitude, ConfigProblem::Invalid));
}

#[test]
fn unparseable_flag_is_not_rescued_by_the_environment() {
    let mut flags = nothing();
    flags.latitude = Some(NumberInput::Unparseable);
    assert_eq!(resolve(&flags, &complete()), config_error(Field::Latitude, ConfigProblem::Invalid));
}

#[test]
fn unparseable_variable_is_ignored_under_a_flag() {
    let mut env = complete();
    env.latitude = Some(NumberInput::Unparseable);
    env.longitude = Some(NumberInput::Unparseable);
    env.units = text("kelvin");
    assert_eq!(resolve(&complete(), &env), resolve(&complete(), &nothing()));
}

#[test]
fn first_field_at_fault_is_reported() {
    assert_eq!(
        resolve(&nothing(), &nothing()),
        config_error(Field::Latitude, ConfigProblem::Missing)
    );
    let mut flags = nothing();
    flags.latitude = number("1");
    assert_eq!(resolve(&flags, &nothing()), config_error(Field::Longitude, ConfigProblem::Missing));
    flags.longitude = number("2");
    flags.units = text("??");
    assert_eq!(resolve(&flags, &nothing()), config_error(Field::Units, ConfigProblem::Invalid));
    flags.units = None;
    assert_eq!(resolve(&flags, &nothing()), config_error(Field::UserAgent, ConfigProblem::Missing));
}

#[test]
fn empty_user_agent_is_a_value() {
    let mut flags = complete();
    flags.user_agent = text("");
    assert_eq!(resolve(&flags, &nothing()).unwrap().user_agent, "");
}
