use crate::model::constance::{DEFAULT_HOST, DEFAULT_JWT_EXPIRATION_TIME_HOUR, DEFAULT_PORT};
use vstd::prelude::*;

verus! {

/// The whole configuration of the process.
pub struct Config {
    pub setting: Option<Setting>,
    pub database: Database,
    pub jwt: Jwt,
}

impl Default for Config {
    fn default() -> (config: Self)
        ensures
            config.setting is None,
            config.database.is_blank(),
            config.jwt.token_secret@ == Seq::<char>::empty(),
            config.jwt.expiration_time == 0,
    {
        Config { setting: None, database: Database::default(), jwt: Jwt::default() }
    }
}

/// Where the database is and how to log in to it.
#[derive(Debug)]
pub struct Database {
    pub user: String,
    pub password: String,
    pub host: String,
    pub port: i64,
    pub dbname: String,
}

impl Database {
    /// Every text is empty and the port is 0.
    pub open spec fn is_blank(&self) -> bool {
        &&& self.user@ == Seq::<char>::empty()
        &&& self.password@ == Seq::<char>::empty()
        &&& self.host@ == Seq::<char>::empty()
        &&& self.port == 0
        &&& self.dbname@ == Seq::<char>::empty()
    }
}

impl Default for Database {
    fn default() -> (database: Self)
        ensures
            database.is_blank(),
    {
        Database {
            user: String::new(),
            password: String::new(),
            host: String::new(),
            port: 0,
            dbname: String::new(),
        }
    }
}

/// Where the server listens.
#[derive(Debug)]
pub struct Setting {
    pub host: String,
    pub port: u16,
}

impl Clone for Setting {
    fn clone(&self) -> (copy: Self)
        ensures
            copy == *self,
    {
        Setting { host: self.host.clone(), port: self.port }
    }
}

/// The host of a setting that names none.
pub fn default_setting_host() -> (host: String)
    ensures
        host@ == DEFAULT_HOST@,
{
    DEFAULT_HOST.to_owned()
}

/// The port of a setting that names none.
pub fn default_setting_port() -> (port: u16)
    ensures
        port == DEFAULT_PORT,
{
    DEFAULT_PORT
}

impl Default for Setting {
    fn default() -> (setting: Self)
        ensures
            setting.host@ == DEFAULT_HOST@,
            setting.port == DEFAULT_PORT,
    {
        Self { host: default_setting_host(), port: default_setting_port() }
    }
}

/// How credentials are signed and how long they live.
#[derive(Debug)]
pub struct Jwt {
    pub token_secret: String,
    /// Lifetime of a credential in hours.
    pub expiration_time: i64,
}

impl Clone for Jwt {
    fn clone(&self) -> (copy: Self)
        ensures
            copy == *self,
    {
        Jwt { token_secret: self.token_secret.clone(), expiration_time: self.expiration_time }
    }
}

impl Default for Jwt {
    fn default() -> (jwt: Self)
        ensures
            jwt.token_secret@ == Seq::<char>::empty(),
            jwt.expiration_time == 0,
    {
        Jwt { token_secret: String::new(), expiration_time: 0 }
    }
}

/// The lifetime, in hours, of a credential where the configuration names
/// none.
pub fn default_jwt_expiration_time() -> (hours: i64)
    ensures
        hours == DEFAULT_JWT_EXPIRATION_TIME_HOUR,
{
    DEFAULT_JWT_EXPIRATION_TIME_HOUR
}

} // verus!
