use vstd::prelude::*;

verus! {

/// A row of the user table. Points in time are whole seconds since the Unix
/// epoch.
#[derive(Debug)]
pub struct User {
    pub id: Option<u64>,
    pub create_time: Option<i64>,
    pub creator_id: Option<u64>,
    pub update_time: Option<i64>,
    pub updater_id: Option<u64>,
    pub is_delete: Option<u8>,
    pub del_unique_key: Option<i8>,
    pub username: Option<String>,
    pub password: Option<String>,
    pub name: Option<String>,
}

impl User {
    /// The row of a user who registers at the time `now`: not yet stored (no
    /// id), created by nobody (creator 0), never updated, not deleted.
    /// `password` is stored as given, so it must already be hashed.
    pub fn init_create(username: String, password: String, name: String, now: i64) -> (user: Self)
        ensures
            user.id is None,
            user.create_time == Some(now),
            user.creator_id == Some(0u64),
            user.update_time is None,
            user.updater_id is None,
            user.is_delete == Some(0u8),
            user.del_unique_key == Some(0i8),
            user.username == Some(username),
            user.password == Some(password),
            user.name == Some(name),
    {
        User {
            id: None,
            create_time: Some(now),
            creator_id: Some(0),
            update_time: None,
            updater_id: None,
            is_delete: Some(0),
            del_unique_key: Some(0),
            username: Some(username),
            password: Some(password),
            name: Some(name),
        }
    }
}

/// A row of the role table.
#[derive(Debug)]
pub struct Role {
    pub id: Option<u64>,
    pub create_time: Option<i64>,
    pub creator_id: Option<u64>,
    pub update_time: Option<i64>,
    pub updater_id: Option<u64>,
    pub is_delete: Option<u8>,
    pub del_unique_key: Option<i8>,
    pub role_name: Option<String>,
    pub role_desc: Option<String>,
}

/// A row of the table that gives roles to users.
#[derive(Debug)]
pub struct UserRelRole {
    pub id: Option<u64>,
    pub create_time: Option<i64>,
    pub creator_id: Option<u64>,
    pub update_time: Option<i64>,
    pub updater_id: Option<u64>,
    pub is_delete: Option<u8>,
    pub del_unique_key: Option<i8>,
    pub user_id: Option<u64>,
    pub role_id: Option<u64>,
}

/// A row of the resource table. `resource_type` is 1 for a path, 2 for a
/// page and 3 for a button.
#[derive(Debug)]
pub struct Resource {
    pub id: Option<u64>,
    pub create_time: Option<i64>,
    pub creator_id: Option<u64>,
    pub update_time: Option<i64>,
    pub updater_id: Option<u64>,
    pub is_delete: Option<u8>,
    pub del_unique_key: Option<i8>,
    pub resource_value: Option<String>,
    pub resource_desc: Option<String>,
    pub resource_type: Option<u8>,
    pub parent_id: Option<u64>,
}

/// A row of the table that gives resources to roles.
#[derive(Debug)]
pub struct RoleRelResource {
    pub id: Option<u64>,
    pub create_time: Option<i64>,
    pub creator_id: Option<u64>,
    pub update_time: Option<i64>,
    pub updater_id: Option<u64>,
    pub is_delete: Option<u8>,
    pub del_unique_key: Option<i8>,
    pub role_id: Option<u64>,
    pub resource_id: Option<u64>,
}

} // verus!
