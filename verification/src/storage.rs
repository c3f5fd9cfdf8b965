use vstd::prelude::*;

use crate::api::providers::provider_of;
use crate::commands::CommandsConfig;
use crate::platform::ExclusionConfig;

verus! {

/// An API key as the configuration stores it; the secret itself lives in the
/// operating system's key store.
#[derive(Debug, Clone, PartialEq, Eq)]
pub struct ApiKeyConfig {
    pub id: String,
    pub provider: String,
    pub alias: Option<String>,
    pub status: String,
    pub created_at: String,
}

#[derive(Debug, Clone, PartialEq, Eq)]
pub struct GeneralConfig {
    pub enabled: bool,
    pub show_spinner: bool,
}

#[derive(Debug, Clone, PartialEq, Eq)]
pub struct ProviderConfig {
    /// The name of the provider in use.
    pub active: String,
    /// The model to ask; the provider's default model when absent.
    pub model: Option<String>,
}

#[derive(Debug, Clone, PartialEq, Eq)]
pub struct ApiConfig {
    pub response_timeout_ms: u64,
}

#[derive(Debug, Clone, PartialEq, Eq)]
pub struct ExtractionConfig {
    pub select_all_wait_ms: u64,
    pub clipboard_read_wait_ms: u64,
    pub clipboard_restore_wait_ms: u64,
}

/// The whole configuration of the application.
#[derive(Debug, Clone, PartialEq, Eq)]
pub struct AppConfig {
    pub general: GeneralConfig,
    pub provider: ProviderConfig,
    pub api: ApiConfig,
    pub extraction: ExtractionConfig,
    pub commands: CommandsConfig,
    pub api_keys: Vec<ApiKeyConfig>,
    pub exclusions: ExclusionConfig,
}

#[derive(Debug, Clone, PartialEq, Eq)]
pub enum ConfigError {
    UnknownProvider(String),
    ZeroResponseTimeout,
}

/// The configuration is usable: it names a known provider and gives the
/// provider time to answer.
pub open spec fn config_valid(c: AppConfig) -> bool {
    provider_of(c.provider.active@) is Some && c.api.response_timeout_ms > 0
}

impl Default for AppConfig {
    fn default() -> (c: AppConfig)
        ensures
            !c.general.enabled,
            c.general.show_spinner,
            c.provider.active@ == "gemini"@,
            c.provider.model is None,
            c.api.response_timeout_ms == 30_000,
            c.extraction.select_all_wait_ms == 100,
            c.extraction.clipboard_read_wait_ms == 300,
            c.extraction.clipboard_restore_wait_ms == 150,
            c.commands.custom@.len() == 0,
            c.api_keys@.len() == 0,
            crate::platform::texts_of(c.exclusions.apps@)
                == crate::platform::default_excluded_apps(),
    {
        AppConfig {
            general: GeneralConfig { enabled: false, show_spinner: true },
            provider: ProviderConfig { active: String::from_str("gemini"), model: None },
            api: ApiConfig { response_timeout_ms: 30_000 },
            extraction: ExtractionConfig {
                select_all_wait_ms: 100,
                clipboard_read_wait_ms: 300,
                clipboard_restore_wait_ms: 150,
            },
            commands: CommandsConfig::default(),
            api_keys: Vec::new(),
            exclusions: ExclusionConfig::default(),
        }
    }
}


impl AppConfig {
    pub fn validate(&self) -> (r: Result<(), ConfigError>)
        ensures
            r is Ok <==> config_valid(*self),
            r matches Err(ConfigError::UnknownProvider(p)) ==> p@ == self.provider.active@
                && provider_of(p@) is None,
            r matches Err(ConfigError::ZeroResponseTimeout) ==> provider_of(
                self.provider.active@,
            ) is Some && self.api.response_timeout_ms == 0,
    {
        match crate::api::providers::ProviderKind::parse(self.provider.active.as_str()) {
            Ok(_) => {},
            Err(_) => {
                return Err(ConfigError::UnknownProvider(self.provider.active.clone()));
            },
        }
        if self.api.response_timeout_ms == 0 {
            return Err(ConfigError::ZeroResponseTimeout);
        }
        Ok(())
    }
}

} // verus!
