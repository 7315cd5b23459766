use bigbang::home::handle;
use bigbang::service::Settings;

#[test]
fn home_document_carries_the_name() {
    let output = handle();
    assert_eq!(output.name, "Graham");
}

#[test]
fn settings_hold_port_and_database_url() {
    let settings = Settings {
        port: 8000,
        database_url: "postgres://localhost/bigbang".to_string(),
    };
    assert_eq!(settings.port, 8000);
    assert_eq!(settings.database_url, "postgres://localhost/bigbang");
}
