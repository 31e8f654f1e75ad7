use crate::server::config::ServerSettings;
use vstd::prelude::*;

verus! {

/// The administrator's sign-in form.
#[derive(Clone, Debug, PartialEq, Eq)]
pub struct LoginRequest {
    pub username: String,
    pub password: String,
}

impl LoginRequest {
    /// Whether the form names the administrator: both the user name and the
    /// password are exactly those of the settings.
    pub fn matches_admin(&self, settings: &ServerSettings) -> (matches: bool)
        ensures
            matches == (self.username@ == settings.admin_username@ && self.password@ == settings.admin_password@),
    {
        self.username == settings.admin_username && self.password == settings.admin_password
    }
}

/// The token handed out at sign-in and when it expires.
#[derive(Clone, Debug, PartialEq, Eq)]
pub struct LoginResponse {
    pub jwt_token: String,
    pub expires_at: String,
}

/// A request to render a text sprite of a kind.
#[derive(Clone, Debug, PartialEq, Eq)]
pub struct SpritePayload {
    pub kind: String,
    pub text: String,
}

} // verus!
