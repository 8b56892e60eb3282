//! A client for a remote text-translation service: language codes, the
//! provider's request and response shapes, and the mapping of every
//! outcome of a provider call into a typed result.

pub mod error;
pub mod google;
pub mod invocation;
pub mod lang;

pub use error::TranslateError;
pub use google::{
    Google, GoogleRequestBody, GoogleResponseBody, GoogleResponseTranslation, ProviderOutcome,
    TranslateRequest, TranslateResult,
};
pub use invocation::{Invocation, InvocationError};
pub use lang::{Lang, UnsupportedLanguage};
