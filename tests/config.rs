use clacks::config::{Config, ConfigLoader, Environment};
use clacks::errors::Error;
use clacks::machine::TimingConfig;
use clacks::message::Message;
use clacks::time::Duration;

fn timing() -> TimingConfig {
    TimingConfig::new(
        Duration::new_from_seconds(1),
        Duration::new_from_seconds(2),
        Duration::new_from_seconds(3),
        Duration::new_from_seconds(4),
    )
}

#[test]
fn environment_names() {
    assert_eq!(Environment::from_name("production").unwrap(), Environment::Production);
    assert_eq!(Environment::from_name("development").unwrap(), Environment::Development);
    assert_eq!(
        Environment::from_name("staging").unwrap_err(),
        Error::InvalidEnvironment
    );
    assert_eq!(
        Environment::from_name("Production").unwrap_err(),
        Error::InvalidEnvironment
    );
}

#[test]
fn config_checks_address_and_queue_size() {
    let c = Config::new(
        "0.0.0.0:8080".to_string(),
        10,
        Environment::Development,
        vec![Message::new("HELLO").unwrap()],
        timing(),
    )
    .unwrap();
    assert_eq!(c.address(), "0.0.0.0:8080");
    assert_eq!(c.queue_size(), 10);
    assert_eq!(*c.environment(), Environment::Development);
    assert_eq!(c.messages_to_inject().len(), 1);
    assert_eq!(*c.timing(), timing());

    let r = Config::new(String::new(), 10, Environment::Production, vec![], timing());
    assert_eq!(r.unwrap_err(), Error::EmptyAddress);
    let r = Config::new("a".to_string(), 0, Environment::Production, vec![], timing());
    assert_eq!(r.unwrap_err(), Error::ZeroQueueSize);
}

#[test]
fn loader_keeps_path() {
    let loader = ConfigLoader::new("config.toml".to_string());
    assert_eq!(loader.path(), "config.toml");
}
