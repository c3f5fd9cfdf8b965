use vstd::prelude::*;

use crate::api::key_pool::key_from_config;
use crate::api::providers::{
    default_model, plain_text, provider_of, ApiClientConfig, ProviderError,
};
use crate::api::KeyPool;
use crate::clipboard::ClipboardError;
use crate::commands::{custom_ok, CommandRegistry, CustomCommandError};
use crate::input::InputSimulationError;
use crate::platform::{
    ExclusionMatcher, ForegroundApp, ForegroundAppView, OperationGate, StaticForegroundAppProvider,
};
use crate::storage::{config_valid, AppConfig, ConfigError};

verus! {

/// The configuration error as `{:?}` writes it (`format!` with the derived
/// `Debug`): the variant's name, and for an unknown provider the name in
/// quotes, unescaped when it has only plain characters. Nothing is claimed of
/// other names.
#[verifier::external_body]
fn debug_text(error: &ConfigError) -> (s: String)
    ensures
        *error == ConfigError::ZeroResponseTimeout ==> s@ == "ZeroResponseTimeout"@,
        error matches ConfigError::UnknownProvider(name) ==> (plain_text(name@) ==> s@
            == "UnknownProvider(\""@ + name@ + "\")"@),
{
    format!("{error:?}")
}

/// Everything the runtime is built from, read from the configuration.
/// Durations are milliseconds.
#[derive(Debug, Clone)]
pub struct RuntimePlan {
    pub registry: CommandRegistry,
    pub key_pool: KeyPool,
    pub api_config: ApiClientConfig,
    pub gate: OperationGate,
    pub response_timeout: u64,
    pub show_spinner: bool,
    pub select_all_wait: u64,
    pub clipboard_read_wait: u64,
    pub clipboard_restore_wait: u64,
}

#[derive(Debug)]
pub enum RuntimeBuildError {
    Config(String),
    Commands(CustomCommandError),
    ApiConfig(ProviderError),
    KeyPool(String),
    Clipboard(ClipboardError),
    Input(InputSimulationError),
}

/// The configuration can be turned into a plan: it is valid, its custom
/// commands and its API keys can all be read, and it names a model or its
/// provider has a default one.
pub open spec fn plan_possible(c: AppConfig) -> bool {
    &&& config_valid(c)
    &&& (c.provider.model is Some || default_model(provider_of(c.provider.active@)->Some_0) is Some)
    &&& forall|i: int| 0 <= i < c.commands.custom@.len() ==> custom_ok(c.commands.custom@, i)
    &&& forall|i: int| 0 <= i < c.api_keys@.len() ==> key_from_config(#[trigger] c.api_keys@[i]) is Ok
}

impl RuntimePlan {
    pub fn from_config(config: &AppConfig) -> (r: Result<RuntimePlan, RuntimeBuildError>)
        ensures
            plan_possible(*config) ==> (r matches Ok(plan) && {
                &&& plan.registry@ == crate::commands::builtin_registry()
                    + config.commands.custom@.map_values(
                    |c: crate::commands::CommandConfig| crate::commands::custom_view(c),
                )
                &&& plan.key_pool@.len() == config.api_keys@.len()
                &&& forall|i: int|
                    0 <= i < config.api_keys@.len() ==> crate::api::key_pool::same_key(
                        #[trigger] plan.key_pool@[i],
                        key_from_config(config.api_keys@[i])->Ok_0,
                    )
                &&& plan.api_config.provider == provider_of(config.provider.active@)->Some_0
                &&& plan.api_config.model@ == match config.provider.model {
                    Some(m) => m@,
                    None => default_model(provider_of(config.provider.active@)->Some_0)->Some_0,
                }
                &&& plan.gate.enabled() == config.general.enabled
                &&& plan.gate.excluded() == crate::platform::texts_of(config.exclusions.apps@)
                &&& plan.response_timeout == config.api.response_timeout_ms
                &&& plan.show_spinner == config.general.show_spinner
                &&& plan.select_all_wait == config.extraction.select_all_wait_ms
                &&& plan.clipboard_read_wait == config.extraction.clipboard_read_wait_ms
                &&& plan.clipboard_restore_wait == config.extraction.clipboard_restore_wait_ms
            }),
            !plan_possible(*config) ==> r is Err,
            r matches Err(RuntimeBuildError::Config(_)) <==> !config_valid(*config),
            r matches Err(RuntimeBuildError::Config(m)) ==> if provider_of(
                config.provider.active@,
            ) is None {
                plain_text(config.provider.active@) ==> m@ == "UnknownProvider(\""@
                    + config.provider.active@ + "\")"@
            } else {
                m@ == "ZeroResponseTimeout"@
            },
            r matches Err(RuntimeBuildError::Commands(_)) <==> config_valid(*config) && !(forall|
                i: int,
            |
                0 <= i < config.commands.custom@.len() ==> custom_ok(config.commands.custom@, i)),
            r matches Err(RuntimeBuildError::KeyPool(_)) <==> config_valid(*config) && (forall|
                i: int,
            |
                0 <= i < config.commands.custom@.len() ==> custom_ok(config.commands.custom@, i))
                && !(forall|i: int|
                0 <= i < config.api_keys@.len() ==> key_from_config(#[trigger] config.api_keys@[i]) is Ok),
            r matches Err(RuntimeBuildError::ApiConfig(_)) <==> config_valid(*config) && (forall|
                i: int,
            |
                0 <= i < config.commands.custom@.len() ==> custom_ok(config.commands.custom@, i))
                && (forall|i: int|
                0 <= i < config.api_keys@.len() ==> key_from_config(#[trigger] config.api_keys@[i]) is Ok)
                && config.provider.model is None && default_model(
                provider_of(config.provider.active@)->Some_0,
            ) is None,
            !(r matches Err(RuntimeBuildError::Clipboard(_))),
            !(r matches Err(RuntimeBuildError::Input(_))),
    {
        if let Err(error) = config.validate() {
            return Err(RuntimeBuildError::Config(debug_text(&error)));
        }
        let registry = match CommandRegistry::from_config(&config.commands) {
            Ok(registry) => registry,
            Err(error) => {
                return Err(RuntimeBuildError::Commands(error));
            },
        };
        let key_pool = match KeyPool::from_config(config.api_keys.as_slice()) {
            Ok(pool) => pool,
            Err(error) => {
                return Err(RuntimeBuildError::KeyPool(error));
            },
        };
        let api_config = match ApiClientConfig::from_app_config(config) {
            Ok(api_config) => api_config,
            Err(error) => {
                return Err(RuntimeBuildError::ApiConfig(error));
            },
        };
        Ok(
            RuntimePlan {
                registry,
                key_pool,
                api_config,
                gate: OperationGate::new(
                    config.general.enabled,
                    ExclusionMatcher::from_config(&config.exclusions),
                ),
                response_timeout: config.api.response_timeout_ms,
                show_spinner: config.general.show_spinner,
                select_all_wait: config.extraction.select_all_wait_ms,
                clipboard_read_wait: config.extraction.clipboard_read_wait_ms,
                clipboard_restore_wait: config.extraction.clipboard_restore_wait_ms,
            },
        )
    }
}

impl RuntimePlan {
    /// The text shown after the field while a transformation runs: `[...]`
    /// when the plan shows a spinner, none otherwise.
    pub fn progress_marker(&self) -> (m: Option<String>)
        ensures
            self.show_spinner ==> (m matches Some(t) && t@ == seq!['[', '.', '.', '.', ']']),
            !self.show_spinner ==> m is None,
    {
        if self.show_spinner {
            proof {
                reveal_strlit("[...]");
            }
            Some(String::from_str("[...]"))
        } else {
            None
        }
    }
}

/// The foreground provider on a system without a native one: it always
/// reports an ordinary application named `unknown`, with no window.
pub fn system_foreground_provider() -> (p: StaticForegroundAppProvider)
    ensures
        p.app()@ == (ForegroundAppView {
            app_id: seq!['u', 'n', 'k', 'n', 'o', 'w', 'n'],
            window_id: None,
            display_name: None,
            secure_input: false,
            elevated: false,
        }),
{
    proof {
        reveal_strlit("unknown");
    }
    let app = ForegroundApp {
        app_id: String::from_str("unknown"),
        window_id: None,
        display_name: None,
        secure_input: false,
        elevated: false,
    };
    assert(app.app_id@ =~= seq!['u', 'n', 'k', 'n', 'o', 'w', 'n']);
    StaticForegroundAppProvider::new(app)
}

} // verus!
