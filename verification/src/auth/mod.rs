//! Credentials: the token codec, the password digests and the guards that
//! let through or reject a request.

pub mod admin_auth;
pub mod jwt;
pub mod password;
pub mod session;
pub mod staff_auth;
pub mod user_auth;

pub use admin_auth::AdminAuth;
pub use jwt::{CodecKey, SigningScheme};
pub use session::{Claims, JWTAuthService};
pub use staff_auth::StaffAuth;
pub use user_auth::{gen_token_cookie, TokenClaims, UserDigest};
