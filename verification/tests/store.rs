//! Tests of the record store, the configuration, the response envelope and
//! the error enums.

use y4m2d2::config::AppConfig;
use y4m2d2::config::AppCore;
use y4m2d2::config::Config;
use y4m2d2::errors::ApiError;
use y4m2d2::errors::CliError;
use y4m2d2::errors::ConfigError;
use y4m2d2::errors::DatabaseError;
use y4m2d2::errors::ErrorSeverity;
use y4m2d2::errors::PlatformError;
use y4m2d2::handlers::ApiResponse;
use y4m2d2::logic::AppData;
use y4m2d2::logic::AppLogic;

#[test]
fn test_add_data() {
    let mut logic = AppLogic::new();
    let id = logic.add_data("test".to_string(), 100);
    assert_eq!(id, 1);
    assert_eq!(logic.get_all_data().len(), 1);
}

#[test]
fn test_get_data_by_id() {
    let mut logic = AppLogic::new();
    let id = logic.add_data("test".to_string(), 100);
    let data = logic.get_data_by_id(id);
    assert!(data.is_some());
    assert_eq!(data.unwrap().name, "test");
}

#[test]
fn logic_test_update_data() {
    let mut logic = AppLogic::new();
    let id = logic.add_data("test".to_string(), 100);
    let result = logic.update_data(id, Some("updated".to_string()), Some(200));
    assert!(result);

    let data = logic.get_data_by_id(id).unwrap();
    assert_eq!(data.name, "updated");
    assert_eq!(data.value, 200);
}

#[test]
fn logic_test_delete_data() {
    let mut logic = AppLogic::new();
    let id = logic.add_data("test".to_string(), 100);
    let result = logic.delete_data(id);
    assert!(result);
    assert_eq!(logic.get_all_data().len(), 0);
}

#[test]
fn test_process_data_overflow_protection() {
    let mut logic = AppLogic::new();
    logic.add_data("max_value".to_string(), i32::MAX);

    let result = logic.process_data();
    assert!(result.is_err());
    assert!(result.unwrap_err().to_string().contains("Integer overflow"));
}

#[test]
fn test_app_data_methods() {
    let mut data = AppData::new(1, "test".to_string(), 100);

    data.add_metadata("key1".to_string(), "value1".to_string());
    data.add_metadata("key2".to_string(), "value2".to_string());

    assert_eq!(data.get_metadata("key1"), Some(&"value1".to_string()));
    assert_eq!(data.get_metadata("key2"), Some(&"value2".to_string()));
    assert_eq!(data.get_metadata("nonexistent"), None);
}

#[test]
fn tauri_commands_test() {
    assert!(true);
}

#[test]
fn test_app_logic_creation() {
    let logic = AppLogic::new();
    assert_eq!(logic.get_all_data().len(), 0);
}

#[test]
fn test_add_and_get_data() {
    let mut logic = AppLogic::new();
    let id = logic.add_data("test_item".to_string(), 42);

    let data = logic.get_data_by_id(id);
    assert!(data.is_some());

    let data = data.unwrap();
    assert_eq!(data.id, id);
    assert_eq!(data.name, "test_item");
    assert_eq!(data.value, 42);
}

#[test]
fn unit_tests_test_update_data() {
    let mut logic = AppLogic::new();
    let id = logic.add_data("original".to_string(), 100);

    let success = logic.update_data(id, Some("updated".to_string()), Some(200));
    assert!(success);

    let data = logic.get_data_by_id(id).unwrap();
    assert_eq!(data.name, "updated");
    assert_eq!(data.value, 200);
}

#[test]
fn unit_tests_test_delete_data() {
    let mut logic = AppLogic::new();
    let id = logic.add_data("to_delete".to_string(), 50);

    assert!(logic.get_data_by_id(id).is_some());

    let success = logic.delete_data(id);
    assert!(success);

    assert!(logic.get_data_by_id(id).is_none());
    assert_eq!(logic.get_all_data().len(), 0);
}

#[test]
fn test_process_data() {
    let mut logic = AppLogic::new();
    logic.add_data("item1".to_string(), 5);
    logic.add_data("item2".to_string(), 10);

    let result = logic.process_data();
    assert!(result.is_ok());

    let data = logic.get_all_data();
    assert_eq!(data[0].value, 10);
    assert_eq!(data[1].value, 20);
}

#[test]
fn test_process_data_message() {
    let mut logic = AppLogic::new();
    logic.add_data("a".to_string(), 1);
    logic.add_data("b".to_string(), 2);
    let result = logic.process_data();
    assert_eq!(result.unwrap(), "Processed 2 entries");
}

#[test]
fn test_update_missing_record() {
    let mut logic = AppLogic::new();
    logic.add_data("only".to_string(), 1);
    assert!(!logic.update_data(99, Some("x".to_string()), None));
    assert!(!logic.delete_data(99));
    assert_eq!(logic.get_all_data().len(), 1);
}

#[test]
fn test_metadata_replaces_value() {
    let mut data = AppData::new(7, "d".to_string(), 0);
    data.add_metadata("k".to_string(), "first".to_string());
    data.add_metadata("k".to_string(), "second".to_string());
    assert_eq!(data.get_metadata("k"), Some(&"second".to_string()));
    assert_eq!(data.metadata.len(), 1);
}

#[test]
fn test_config_defaults() {
    let c = Config::default();
    assert_eq!(c.log_level, "info");
    assert_eq!(c.log_file, "app.log");
    assert_eq!(c.database.url, "postgres://localhost:5432/mydb");
    assert_eq!(c.database.max_connections, 10);
    assert_eq!(c.api.host, "localhost");
    assert_eq!(c.api.port, 8080);
    assert_eq!(c.api.api_key, "");
    assert_eq!(c.i18n.default_language, "en");
    assert_eq!(c.i18n.translations_dir, "translations");
}

#[test]
fn test_app_core_settings() {
    let mut core = AppCore::new(AppConfig::default(), "settings.toml".to_string());
    assert_eq!(core.config().language, "en");
    assert!(core.set_language("ja".to_string()).is_ok());
    assert!(core.set_log_level("debug".to_string()).is_ok());
    assert!(core.set_force_cli_mode(true).is_ok());
    assert_eq!(core.config().language, "ja");
    assert_eq!(core.config().log_level, "debug");
    assert!(core.config().force_cli_mode);
    assert_eq!(
        core.get_app_info(),
        "App: rust-tool-template v0.1.0\nLanguage: ja\nLog Level: debug\nCLI Mode: true"
    );
    assert_eq!(core.get_main_content(), "hoge");
}

#[test]
fn test_api_response_envelopes() {
    let ok: ApiResponse<u32> = ApiResponse::success(5);
    assert!(ok.success);
    assert_eq!(ok.data, Some(5));
    assert!(ok.message.is_none());

    let err: ApiResponse<u32> = ApiResponse::error("boom".to_string());
    assert!(!err.success);
    assert!(err.data.is_none());
    assert_eq!(err.message, Some("boom".to_string()));
}

#[test]
fn test_error_messages() {
    assert_eq!(
        ConfigError::LoadError("f".to_string()).message(),
        "Failed to load configuration: f"
    );
    assert_eq!(ApiError::AuthError("no".to_string()).message(), "Authentication error: no");
    assert_eq!(CliError::InvalidArgument("-z".to_string()).message(), "Invalid argument: -z");
    assert_eq!(
        DatabaseError::ConnectionError("down".to_string()).message(),
        "Connection error: down"
    );
    assert_eq!(
        PlatformError::UnsupportedPlatform("dos".to_string()).message(),
        "Unsupported platform: dos"
    );
    assert_ne!(ErrorSeverity::Warning, ErrorSeverity::Error);
}
