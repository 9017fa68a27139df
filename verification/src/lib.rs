pub mod api;
pub mod auth;
pub mod error;
pub mod json;
pub mod scope;
pub mod strutil;
pub mod urlenc;

pub use api::ApiCli;
pub use api::GetMeasRequest;
pub use auth::AccessToken;
pub use auth::AccessTokenRequest;
pub use auth::AccessTokenResponse;
pub use auth::AuthCli;
pub use auth::RefreshToken;
pub use auth::RefreshTokenRequest;
pub use auth::RefreshTokenResponse;
pub use error::classify_envelope;
pub use error::handle_response;
pub use error::JsonDecodable;
pub use error::ResponseError;
pub use error::WithingsApiError;
pub use scope::parse_scopes;
pub use scope::scopes_to_wire;
pub use scope::Scope;

use vstd::prelude::*;

verus! {

/// Host serving the interactive authorization page; the authorize URL is
/// built against this host and handed to the caller to open in a browser.
pub const WITHINGS_ACCOUNT_URL: &'static str = "https://account.withings.com";

/// Default base URL of the data/token API.
pub const WITHINGS_API_URL: &'static str = "https://wbsapi.withings.net";

} // verus!
