//! The tool shell's configuration: the full settings record with its
//! defaults, the runtime settings, and the application core that owns
//! them. Reading and writing configuration files happens outside the
//! library; the defaults and every settings change are stated exactly.

use vstd::prelude::*;

verus! {

/// Connection settings of the data store.
#[derive(Debug, Clone)]
pub struct DatabaseConfig {
    pub url: String,
    pub max_connections: u32,
}

/// Settings of the HTTP surface.
#[derive(Debug, Clone)]
pub struct ApiConfig {
    pub host: String,
    pub port: u16,
    pub api_key: String,
}

/// Language settings.
#[derive(Debug, Clone)]
pub struct I18nConfig {
    pub default_language: String,
    pub translations_dir: String,
}

/// The full settings record.
#[derive(Debug, Clone)]
pub struct Config {
    pub log_level: String,
    pub log_file: String,
    pub database: DatabaseConfig,
    pub api: ApiConfig,
    pub i18n: I18nConfig,
}

impl Config {
    /// The default settings.
    pub fn default() -> (r: Config)
        ensures
            r.log_level@ == "info"@,
            r.log_file@ == "app.log"@,
            r.database.url@ == "postgres://localhost:5432/mydb"@,
            r.database.max_connections == 10,
            r.api.host@ == "localhost"@,
            r.api.port == 8080,
            r.api.api_key@ == ""@,
            r.i18n.default_language@ == "en"@,
            r.i18n.translations_dir@ == "translations"@,
    {
        Config {
            log_level: String::from_str("info"),
            log_file: String::from_str("app.log"),
            database: DatabaseConfig {
                url: String::from_str("postgres://localhost:5432/mydb"),
                max_connections: 10,
            },
            api: ApiConfig {
                host: String::from_str("localhost"),
                port: 8080,
                api_key: String::from_str(""),
            },
            i18n: I18nConfig {
                default_language: String::from_str("en"),
                translations_dir: String::from_str("translations"),
            },
        }
    }
}

/// The runtime settings of one run of the tool.
#[derive(Debug, Clone)]
pub struct AppConfig {
    /// The interface language code.
    pub language: String,
    /// The logging threshold.
    pub log_level: String,
    /// Whether to stay on the command line even where a shell exists.
    pub force_cli_mode: bool,
    /// How many days log files are kept.
    pub log_retention_days: u32,
}

impl Default for AppConfig {
    /// English, info-level logging, no forced CLI, a week of logs.
    fn default() -> (r: AppConfig)
        ensures
            r.language@ == "en"@,
            r.log_level@ == "info"@,
            !r.force_cli_mode,
            r.log_retention_days == 7,
    {
        AppConfig {
            language: String::from_str("en"),
            log_level: String::from_str("info"),
            force_cli_mode: false,
            log_retention_days: 7,
        }
    }
}

/// The rendering of a boolean in the application summary.
pub open spec fn spec_bool_text(b: bool) -> Seq<char> {
    if b {
        "true"@
    } else {
        "false"@
    }
}

/// The application core: owns the runtime settings. Persisting a change
/// is the caller's step; the change itself is stated here.
pub struct AppCore {
    pub config: AppConfig,
    /// Where the caller persists the settings.
    pub config_path: String,
}

impl AppCore {
    /// A core over loaded settings.
    pub fn new(config: AppConfig, config_path: String) -> (r: AppCore)
        ensures
            r.config == config,
            r.config_path == config_path,
    {
        AppCore { config, config_path }
    }

    /// The current settings.
    pub fn config(&self) -> (r: &AppConfig)
        ensures
            r == &self.config,
    {
        &self.config
    }

    /// Switches the interface language.
    pub fn set_language(&mut self, language: String) -> (r: Result<(), String>)
        ensures
            r is Ok,
            final(self).config.language == language,
            final(self).config.log_level == old(self).config.log_level,
            final(self).config.force_cli_mode == old(self).config.force_cli_mode,
            final(self).config.log_retention_days == old(self).config.log_retention_days,
            final(self).config_path == old(self).config_path,
    {
        self.config.language = language;
        Ok(())
    }

    /// Switches the logging threshold.
    pub fn set_log_level(&mut self, log_level: String) -> (r: Result<(), String>)
        ensures
            r is Ok,
            final(self).config.log_level == log_level,
            final(self).config.language == old(self).config.language,
            final(self).config.force_cli_mode == old(self).config.force_cli_mode,
            final(self).config.log_retention_days == old(self).config.log_retention_days,
            final(self).config_path == old(self).config_path,
    {
        self.config.log_level = log_level;
        Ok(())
    }

    /// Switches the forced command-line mode.
    pub fn set_force_cli_mode(&mut self, force_cli: bool) -> (r: Result<(), String>)
        ensures
            r is Ok,
            final(self).config.force_cli_mode == force_cli,
            final(self).config.language == old(self).config.language,
            final(self).config.log_level == old(self).config.log_level,
            final(self).config.log_retention_days == old(self).config.log_retention_days,
            final(self).config_path == old(self).config_path,
    {
        self.config.force_cli_mode = force_cli;
        Ok(())
    }

    /// A one-string summary of the application and its settings.
    pub fn get_app_info(&self) -> (r: String)
        ensures
            r@ == "App: rust-tool-template v0.1.0\nLanguage: "@ + self.config.language@
                + "\nLog Level: "@ + self.config.log_level@ + "\nCLI Mode: "@ + spec_bool_text(
                self.config.force_cli_mode,
            ),
    {
        let mut s = String::new();
        s.append("App: rust-tool-template v0.1.0\nLanguage: ");
        s.append(self.config.language.as_str());
        s.append("\nLog Level: ");
        s.append(self.config.log_level.as_str());
        s.append("\nCLI Mode: ");
        if self.config.force_cli_mode {
            s.append("true");
        } else {
            s.append("false");
        }
        s
    }

    /// The main screen's content.
    pub fn get_main_content(&self) -> (r: String)
        ensures
            r@ == "hoge"@,
    {
        String::from_str("hoge")
    }
}

} // verus!
