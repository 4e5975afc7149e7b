use vstd::prelude::*;

verus! {

/// What a caller sends to log in.
#[derive(Debug)]
pub struct LoginDto {
    pub username: String,
    pub password: String,
}

impl Clone for LoginDto {
    fn clone(&self) -> (copy: Self)
        ensures
            copy == *self,
    {
        LoginDto { username: self.username.clone(), password: self.password.clone() }
    }
}

/// What a caller sends to register a new user.
#[derive(Debug)]
pub struct RegisterDto {
    pub username: String,
    pub password: String,
    pub recheck_password: String,
    pub name: String,
}

impl Clone for RegisterDto {
    fn clone(&self) -> (copy: Self)
        ensures
            copy == *self,
    {
        RegisterDto {
            username: self.username.clone(),
            password: self.password.clone(),
            recheck_password: self.recheck_password.clone(),
            name: self.name.clone(),
        }
    }
}

/// The mathematical content of a [`RoleRelPathDto`]: a role name and the
/// resource pattern granted to it, both as sequences of characters.
pub ghost struct RoleRelPath {
    pub role_name: Seq<char>,
    pub resource_value: Seq<char>,
}

/// One grant of the permission table: the role `role_name` may reach every
/// path that the regular expression `resource_value` matches.
#[derive(Debug)]
pub struct RoleRelPathDto {
    pub role_name: String,
    pub resource_value: String,
}

impl View for RoleRelPathDto {
    type V = RoleRelPath;

    open spec fn view(&self) -> RoleRelPath {
        RoleRelPath { role_name: self.role_name@, resource_value: self.resource_value@ }
    }
}

impl DeepView for RoleRelPathDto {
    type V = RoleRelPath;

    open spec fn deep_view(&self) -> RoleRelPath {
        self@
    }
}

impl Clone for RoleRelPathDto {
    fn clone(&self) -> (copy: Self)
        ensures
            copy == *self,
    {
        RoleRelPathDto {
            role_name: self.role_name.clone(),
            resource_value: self.resource_value.clone(),
        }
    }
}

} // verus!
