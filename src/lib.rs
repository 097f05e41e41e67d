//! Short-lived bearer tokens for an authenticated cloud API, sourced from an
//! installed command-line authentication tool, with the decision logic of the
//! token cache and of the decoding policy shared by HTTP-based sources.
pub mod error;
pub mod gcloud_authorized_user;
pub mod json;
pub mod response;
pub mod secret;
pub mod text;
pub mod token;

pub use error::Error;
pub use gcloud_authorized_user::{GCloudAuthorizedUser, TokenStyle, ToolRun};
pub use secret::{new_secret, SecretText};
pub use token::{Timestamp, Token, DEFAULT_TOKEN_DURATION};
