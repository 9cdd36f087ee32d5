use pingme_backend::config::{Config, ConfigError, EnvError};
use pingme_backend::error::{ApiError, ErrorKind};

#[test]
fn storage_failures_are_answered_with_500() {
    let e = ApiError::Database("unable to open database file".to_string());
    assert_eq!(e.status_code(), 500);
    assert_eq!(e.message(), "Database error: unable to open database file");
    assert_eq!(e.kind(), ErrorKind::Storage);
    assert!(!e.is_not_found());
}

#[test]
fn rejected_requests_are_answered_with_400() {
    let e = ApiError::InvalidRequest("Subscription not found".to_string());
    assert_eq!(e.status_code(), 400);
    assert_eq!(e.message(), "Invalid request: Subscription not found");
    assert_eq!(e.kind(), ErrorKind::RequestValidation);
    assert!(e.is_not_found());

    let e = ApiError::InvalidRequest("No subscription found".to_string());
    assert_eq!(e.message(), "Invalid request: No subscription found");
    assert!(e.is_not_found());

    let e = ApiError::InvalidRequest("missing field `event`".to_string());
    assert_eq!(e.status_code(), 400);
    assert_eq!(e.kind(), ErrorKind::RequestValidation);
    assert!(!e.is_not_found());

    let e = ApiError::InvalidRequest(String::new());
    assert_eq!(e.message(), "Invalid request: ");
    assert!(!e.is_not_found());
}

#[test]
fn corrupt_data_is_a_kind_of_its_own() {
    let e = ApiError::CorruptData("Invalid preferences format".to_string());
    assert_eq!(e.status_code(), 400);
    assert_eq!(e.message(), "Invalid request: Invalid preferences format");
    assert_eq!(e.kind(), ErrorKind::CorruptData);
    assert!(!e.is_not_found());
    // the same words in a storage failure are no not-found either
    assert!(!ApiError::Database("Subscription not found".to_string()).is_not_found());
    assert!(!ApiError::CorruptData("Subscription not found".to_string()).is_not_found());
}

#[test]
fn settings_that_were_read_are_passed_on() {
    let config = Config {
        api_key: "k".to_string(),
        database_url: "sqlite://pingme.db".to_string(),
    };
    assert_eq!(Config::from_env(Ok(config.clone())), Ok(config));
}

#[test]
fn a_variable_that_is_not_set_is_reported_by_its_field() {
    let res = Config::from_env(Err(EnvError::MissingValue("database_url".to_string())));
    let e = res.unwrap_err();
    assert_eq!(e, ConfigError::MissingVar("database_url".to_string()));
    assert_eq!(e.message(), "Missing or invalid environment variable: database_url");
}

#[test]
fn another_fault_is_passed_on_in_its_own_words() {
    let fault = EnvError::Custom("invalid type: string \"x\", expected u16".to_string());
    let e = Config::from_env(Err(fault.clone())).unwrap_err();
    assert_eq!(e, ConfigError::Envy(fault));
    assert_eq!(e.message(), "invalid type: string \"x\", expected u16");
}

#[test]
fn faults_of_the_environment_have_their_own_messages() {
    assert_eq!(
        EnvError::MissingValue("api_key".to_string()).message(),
        "missing value for field api_key"
    );
    assert_eq!(EnvError::Custom("whoops".to_string()).message(), "whoops");
    assert_eq!(
        ConfigError::Envy(EnvError::MissingValue("api_key".to_string())).message(),
        "missing value for field api_key"
    );
}
