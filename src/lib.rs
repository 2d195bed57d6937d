//! OAuth2 token lifecycle: classification of token-endpoint answers, the
//! refresh-token exchange, the device-flow polling state machine, parsing of
//! application secrets and an in-memory token store keyed by scope sets.
//!
//! Everything that touches the network or the clock lives with the caller:
//! the functions here take the response body and the current time as values.

pub mod json;
pub mod token;
pub mod classify;
pub mod refresh;
pub mod device;
pub mod secret;
pub mod store;
pub mod service_account;

pub use classify::{classify_response, Classified, ProviderError, TransportError};
pub use device::{device_code_request_body, poll_request_body, DeviceFlow, DeviceState, NextStep, PollInformation};
pub use refresh::{RefreshFlow, RefreshResult};
pub use secret::{parse_application_secret, ApplicationSecret, SecretError};
pub use service_account::{parse_service_account_key, ServiceAccountKey};
pub use store::{same_scopes, MemoryStorage};
pub use token::Token;
