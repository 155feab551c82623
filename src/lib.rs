pub mod auth;
pub mod buffer;
pub mod error;
pub mod fed_auth_info;
pub mod fed_auth_token;
pub mod le_bytes;
pub mod utf16;

pub use auth::{AADManagedIdentityAuth, AADServicePrincipalAuth, AuthMethod, SqlServerAuth, WindowsAuth};
pub use error::Error;
pub use fed_auth_info::TokenFedAuthInfo;
pub use fed_auth_token::FedAuthToken;
pub use utf16::{from_utf16_bytes, to_utf16_bytes};
