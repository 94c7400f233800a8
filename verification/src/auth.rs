//! Staff authentication state.
//!
//! A kiosk holds at most one logged-in staff member; the submission
//! worker reads the bearer token and the staff id from here.

use vstd::prelude::*;

verus! {

/// Credentials of the staff member currently logged in at the kiosk.
#[derive(Clone, Debug)]
pub struct AuthInfo {
    pub access_token: String,
    pub refresh_token: String,
    pub user_id: i32,
    pub username: String,
}

/// Holder of the current authentication state.
///
/// The process keeps one store; callers see only copies of the token
/// and the user id.
pub struct AuthStore {
    info: Option<AuthInfo>,
}

impl AuthStore {
    /// A store with nobody logged in.
    pub fn new() -> (r: AuthStore)
        ensures
            r.info() is None,
    {
        AuthStore { info: None }
    }

    /// The stored credentials, if any.
    pub closed spec fn info(&self) -> Option<AuthInfo> {
        self.info
    }

    /// Record a login.
    pub fn set_auth_info(&mut self, auth_info: AuthInfo)
        ensures
            final(self).info() == Some(auth_info),
    {
        self.info = Some(auth_info);
    }

    /// Forget the current login.
    pub fn clear_auth_info(&mut self)
        ensures
            final(self).info() is None,
    {
        self.info = None;
    }

    /// The access token of the current login, if any.
    pub fn get_auth_token(&self) -> (r: Option<String>)
        ensures
            match self.info() {
                Some(info) => r matches Some(t) && t@ == info.access_token@,
                None => r is None,
            },
    {
        match &self.info {
            Some(info) => Some(info.access_token.clone()),
            None => None,
        }
    }

    /// The user id of the current login, if any.
    pub fn get_user_id(&self) -> (r: Option<i32>)
        ensures
            match self.info() {
                Some(info) => r == Some(info.user_id),
                None => r is None,
            },
    {
        match &self.info {
            Some(info) => Some(info.user_id),
            None => None,
        }
    }

    /// Record a login given the separate credential fields.
    pub fn set_user_auth(
        &mut self,
        access_token: String,
        refresh_token: String,
        user_id: i32,
        username: String,
    )
        ensures
            final(self).info() matches Some(info)
                && info.access_token == access_token
                && info.refresh_token == refresh_token
                && info.user_id == user_id
                && info.username == username,
    {
        self.set_auth_info(AuthInfo { access_token, refresh_token, user_id, username });
    }

    /// Forget the current login.
    pub fn clear_user_auth(&mut self)
        ensures
            final(self).info() is None,
    {
        self.clear_auth_info();
    }

    /// Whether somebody is logged in.
    pub fn is_authenticated(&self) -> (r: bool)
        ensures
            r == (self.info() is Some),
    {
        self.info.is_some()
    }
}

} // verus!
