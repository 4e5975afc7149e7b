use vstd::prelude::*;

verus! {

/// Address the server binds to when the configuration names none.
pub const DEFAULT_HOST: &'static str = "0.0.0.0";

/// Port the server binds to when the configuration names none.
pub const DEFAULT_PORT: u16 = 8080;

/// Lifetime of an issued credential, in hours, when the configuration names none.
pub const DEFAULT_JWT_EXPIRATION_TIME_HOUR: i64 = 6;

/// Work factor handed to the password hash.
pub const DEFAULT_BCRYPT_COST: u32 = 12;

/// Name of the request header that carries the credential.
pub const REQUEST_HEAD_TOKEN: &'static str = "token";

} // verus!
