//! Account-credential core: validated value types (email, name, password),
//! opaque API keys with a base64 transport encoding, an in-memory credential
//! store, the registration / login / update protocol, and the request
//! authentication guard that gates every protected operation behind a key.

pub mod api;
pub mod api_key;
pub mod ask;
pub mod service;
pub mod store;
pub mod user;

pub use api::authenticate;
pub use api::ApiError;
pub use ask::GetUser;
pub use ask::NewUser;
pub use ask::UpdateUser;
pub use service::ServiceError;
pub use store::DataError;
pub use store::RevocationStatus;
pub use store::Store;

pub use api_key::ApiKey;
pub use api_key::ApiKeyError;
pub use user::Email;
pub use user::Name;
pub use user::Password;
pub use user::User;
pub use user::UserError;
