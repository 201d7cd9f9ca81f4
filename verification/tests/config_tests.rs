use bpp::config::{Config, DatabaseConfig, FromConfig, LoggingConfig, ServiceConfig};
use bpp::error_def::BppConfigError;
use bpp::note::Note;
use bpp::service::{NoteDao, NoteService};

fn config(name: &str, connection: &str, password: &str) -> Config {
    Config {
        database: DatabaseConfig {
            connection_str: connection.to_string(),
            password_str: password.to_string(),
        },
        logging: LoggingConfig { level: "DEBUG".to_string() },
        service: ServiceConfig { name: name.to_string() },
    }
}

fn failure(detail: &str) -> BppConfigError {
    BppConfigError::FailedToLoadConfigOptions(detail.to_string())
}

#[test]
fn defaults_have_their_values() {
    let c = Config::default();
    assert_eq!(c.database.connection_str, "user@url.ca:8080");
    assert_eq!(c.database.password_str, "123olivera4");
    assert_eq!(c.logging.level, "INFO");
    assert_eq!(c.service.name, "NoteService");
    assert_eq!(DatabaseConfig::default().connection_str, "user@url.ca:8080");
    assert_eq!(DatabaseConfig::default().password_str, "123olivera4");
    assert_eq!(LoggingConfig::default().level, "INFO");
    assert_eq!(ServiceConfig::default().name, "NoteService");
}

#[test]
fn config_file_prefers_the_chosen_path() {
    assert_eq!(Config::config_file(None), "~/bpp_server.config");
    assert_eq!(Config::config_file(Some("/etc/bpp.yaml".to_string())), "/etc/bpp.yaml");
    assert_eq!(Config::config_file(Some(String::new())), "");
}

#[test]
fn load_passes_options_on_or_fails() {
    let loaded = Config::load(Some(config("svc", "db", "pw"))).unwrap();
    assert_eq!(loaded.service.name, "svc");
    assert_eq!(loaded.database.connection_str, "db");
    assert_eq!(loaded.database.password_str, "pw");
    assert_eq!(loaded.logging.level, "DEBUG");
    assert_eq!(Config::load(None).unwrap_err(), failure("Config could not be loaded"));
}

#[test]
fn config_error_message() {
    assert_eq!(
        failure("Config could not be loaded").message(),
        "Invalid config options: Config could not be loaded"
    );
}

#[test]
fn dao_from_config_takes_the_credentials() {
    let dao = match NoteDao::from_config(&config("svc", "user@host.com:8080", "pw")) {
        Ok(dao) => dao,
        Err(e) => panic!("{:?}", e),
    };
    assert_eq!(dao.connection_str(), "user@host.com:8080");
    assert_eq!(dao.password(), "pw");
}

#[test]
fn dao_from_config_needs_both_fields() {
    assert_eq!(
        NoteDao::from_config(&config("svc", "", "pw")).err(),
        Some(failure("Storage connection string is missing"))
    );
    assert_eq!(
        NoteDao::from_config(&config("svc", "db", "")).err(),
        Some(failure("Storage password is missing"))
    );
    assert_eq!(
        NoteDao::from_config(&config("svc", "", "")).err(),
        Some(failure("Storage connection string is missing"))
    );
}

#[test]
fn service_from_config_needs_every_field() {
    assert_eq!(
        NoteService::from_config(&config("", "", "")).err(),
        Some(failure("Service name is missing"))
    );
    assert_eq!(
        NoteService::from_config(&config("svc", "", "pw")).err(),
        Some(failure("Storage connection string is missing"))
    );
    assert_eq!(
        NoteService::from_config(&config("svc", "db", "")).err(),
        Some(failure("Storage password is missing"))
    );
}

#[test]
fn service_from_default_config_serves_notes() {
    let mut service = match NoteService::from_config(&Config::default()) {
        Ok(service) => service,
        Err(e) => panic!("{:?}", e),
    };
    assert_eq!(service.service_name(), "NoteService");
    assert_eq!(service.node().connection_str(), "user@url.ca:8080");
    assert_eq!(service.node().password(), "123olivera4");
    assert_eq!(service.search("", true), Vec::<Note>::new());

    let added = service.add("Groceries", "milk, eggs");
    let expected = Note {
        id: "n1".to_string(),
        title: "Groceries".to_string(),
        content: "milk, eggs".to_string(),
    };
    assert_eq!(added, Some(expected.clone()));
    assert_eq!(service.search("milk", true), vec![expected.clone()]);
    assert_eq!(service.search("milk", false), Vec::<Note>::new());
    assert_eq!(service.rm("n1"), Some(expected));
    assert_eq!(service.search("Groceries", false), Vec::<Note>::new());
    assert_eq!(service.rm("n1"), None);
    assert_eq!(service.add("", "x"), None);
}
