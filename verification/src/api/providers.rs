use vstd::prelude::*;

use crate::text::same_text;

verus! {

/// The AI providers an API key can belong to.
#[derive(Debug, Clone, Copy, PartialEq, Eq, Hash, Structural)]
pub enum ProviderKind {
    Gemini,
    OpenAi,
    Anthropic,
    Custom,
}

#[derive(Debug, Clone, PartialEq, Eq)]
pub enum ProviderError {
    UnknownProvider(String),
    /// The provider has no default model and the configuration names none.
    MissingModel(ProviderKind),
}

/// The provider a configuration name stands for.
pub open spec fn provider_of(name: Seq<char>) -> Option<ProviderKind> {
    if name == "gemini"@ {
        Some(ProviderKind::Gemini)
    } else if name == "openai"@ {
        Some(ProviderKind::OpenAi)
    } else if name == "anthropic"@ {
        Some(ProviderKind::Anthropic)
    } else if name == "custom"@ {
        Some(ProviderKind::Custom)
    } else {
        None
    }
}

impl ProviderKind {
    /// Reads a provider name as the configuration writes it.
    pub fn parse(name: &str) -> (r: Result<ProviderKind, ProviderError>)
        ensures
            match provider_of(name@) {
                Some(p) => r == Ok::<ProviderKind, ProviderError>(p),
                None => r matches Err(ProviderError::UnknownProvider(n)) && n@ == name@,
            },
    {
        if same_text(name, "gemini") {
            Ok(ProviderKind::Gemini)
        } else if same_text(name, "openai") {
            Ok(ProviderKind::OpenAi)
        } else if same_text(name, "anthropic") {
            Ok(ProviderKind::Anthropic)
        } else if same_text(name, "custom") {
            Ok(ProviderKind::Custom)
        } else {
            Err(ProviderError::UnknownProvider(String::from_str(name)))
        }
    }
}

/// A character that `{:?}` writes as it is inside a string.
pub open spec fn plain_char(c: char) -> bool {
    crate::detection::ascii_letter_or_digit(c) || c == ' ' || c == '-' || c == '_' || c == '.'
}

pub open spec fn plain_text(s: Seq<char>) -> bool {
    forall|i: int| 0 <= i < s.len() ==> plain_char(#[trigger] s[i])
}

/// The error as `{:?}` writes it (`format!` with the derived `Debug`). For an
/// unknown provider whose name has only plain characters, `Debug` writes the
/// variant's name and the name in quotes, unescaped; nothing is claimed of
/// other names or of the other variant.
#[verifier::external_body]
pub(crate) fn provider_error_text(error: &ProviderError) -> (s: String)
    ensures
        error matches ProviderError::UnknownProvider(name) ==> (plain_text(name@) ==> s@
            == "UnknownProvider(\""@ + name@ + "\")"@),
{
    format!("{error:?}")
}

impl std::str::FromStr for ProviderKind {
    type Err = ProviderError;

    fn from_str(name: &str) -> (r: Result<ProviderKind, ProviderError>)
        ensures
            match provider_of(name@) {
                Some(p) => r == Ok::<ProviderKind, ProviderError>(p),
                None => r matches Err(ProviderError::UnknownProvider(n)) && n@ == name@,
            },
    {
        ProviderKind::parse(name)
    }
}

} // verus!

verus! {

/// How to talk to the configured provider.
#[derive(Debug, Clone, PartialEq, Eq)]
pub struct ApiClientConfig {
    pub provider: ProviderKind,
    pub model: String,
}

/// The model asked when the configuration names none, for the providers
/// that have one.
pub open spec fn default_model(p: ProviderKind) -> Option<Seq<char>> {
    match p {
        ProviderKind::Gemini => Some("gemini-2.0-flash"@),
        ProviderKind::OpenAi => Some("gpt-4o-mini"@),
        _ => None,
    }
}

impl ProviderKind {
    pub fn default_model(self) -> (m: Option<&'static str>)
        ensures
            match m {
                Some(name) => default_model(self) == Some(name@),
                None => default_model(self) is None,
            },
    {
        match self {
            ProviderKind::Gemini => Some("gemini-2.0-flash"),
            ProviderKind::OpenAi => Some("gpt-4o-mini"),
            _ => None,
        }
    }
}

impl ApiClientConfig {
    /// The client settings of a configuration: its active provider, and its
    /// model or else the provider's default model.
    pub fn from_app_config(config: &crate::storage::AppConfig) -> (r: Result<
        ApiClientConfig,
        ProviderError,
    >)
        ensures
            match provider_of(config.provider.active@) {
                Some(p) => match config.provider.model {
                    Some(m) => r matches Ok(c) && c.provider == p && c.model@ == m@,
                    None => match default_model(p) {
                        Some(m) => r matches Ok(c) && c.provider == p && c.model@ == m,
                        None => r == Err::<ApiClientConfig, ProviderError>(
                            ProviderError::MissingModel(p),
                        ),
                    },
                },
                None => r matches Err(ProviderError::UnknownProvider(n)) && n@
                    == config.provider.active@,
            },
    {
        let provider = ProviderKind::parse(config.provider.active.as_str())?;
        let model = match &config.provider.model {
            Some(m) => m.clone(),
            None => match provider.default_model() {
                Some(m) => String::from_str(m),
                None => {
                    return Err(ProviderError::MissingModel(provider));
                },
            },
        };
        Ok(ApiClientConfig { provider, model })
    }
}

} // verus!
