pub mod key_pool;
pub mod providers;

pub use key_pool::{ApiKey, KeyPool, KeyStatus};
pub use providers::{ApiClientConfig, ProviderError, ProviderKind};
