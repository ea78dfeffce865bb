use forecast::units::UnitSystem;

#[test]
fn code_of_each_unit_system() {
    assert_eq!(UnitSystem::Imperial.code(), "us");
    assert_eq!(UnitSystem::Metric.code(), "si");
}

#[test]
fn default_unit_system_is_imperial() {
    assert_eq!(UnitSystem::default(), UnitSystem::Imperial);
}

#[test]
fn lowercase_tokens_are_read() {
    assert_eq!(UnitSystem::from_token("us"), Some(UnitSystem::Imperial));
    assert_eq!(UnitSystem::from_token("si"), Some(UnitSystem::Metric));
}

#[test]
fn tokens_are_read_in_any_case() {
    assert_eq!(UnitSystem::from_token("US"), Some(UnitSystem::Imperial));
    assert_eq!(UnitSystem::from_token("Us"), Some(UnitSystem::Imperial));
    assert_eq!(UnitSystem::from_token("uS"), Some(UnitSystem::Imperial));
    assert_eq!(UnitSystem::from_token("SI"), Some(UnitSystem::Metric));
    assert_eq!(UnitSystem::from_token("Si"), Some(UnitSystem::Metric));
    assert_eq!(UnitSystem::from_token("sI"), Some(UnitSystem::Metric));
}

#[test]
fn other_tokens_are_refused() {
    assert_eq!(UnitSystem::from_token(""), None);
    assert_eq!(UnitSystem::from_token("u"), None);
    assert_eq!(UnitSystem::from_token("usa"), None);
    assert_eq!(UnitSystem::from_token("metric"), None);
    assert_eq!(UnitSystem::from_token("imperial"), None);
    assert_eq!(UnitSystem::from_token("is"), None);
    assert_eq!(UnitSystem::from_token("su"), None);
    assert_eq!(UnitSystem::from_token(" us"), None);
    assert_eq!(UnitSystem::from_token("us "), None);
    assert_eq!(UnitSystem::from_token("ui"), None);
}

#[test]
fn tokens_of_wide_characters_are_refused() {
    assert_eq!(UnitSystem::from_token("\u{fc}s"), None);
    assert_eq!(UnitSystem::from_token("s\u{131}"), None);
    assert_eq!(UnitSystem::from_token("\u{1f600}"), None);
}

#[test]
fn code_reads_back_as_the_same_unit_system() {
    for system in [UnitSystem::Imperial, UnitSystem::Metric] {
        assert_eq!(UnitSystem::from_token(system.code()), Some(system));
    }
}
