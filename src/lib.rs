//! Abstraction over anything that behaves like a chat server: the authentication-state
//! wrappers for connection handles, the error taxonomy that every request reports through,
//! the authorization a request can carry, and the union of the unauthenticated capabilities.

pub mod challenge;
pub mod text;
pub mod error;
pub mod auth_state;
pub mod authorization;
pub mod capability;

pub use auth_state::{Registration, Unauth};
pub use authorization::{GroupSendFullToken, UserBasedAuthorization};
pub use capability::UnauthenticatedChatApi;
pub use challenge::{ChallengeOption, RateLimitChallenge, UnknownChallengeOption};
pub use error::{DisconnectedError, RequestError, RetryLater};
pub use text::LogSafeDisplay;
