//! Where the API lives and who logs in to it.

use vstd::prelude::*;

verus! {

/// The three texts of a [`Settings`] value.
pub struct SettingsView {
    pub domain: Seq<char>,
    pub username: Seq<char>,
    pub password: Seq<char>,
}

/// The base URL of the API and the account that logs in. A value is not
/// changed once it is made.
#[derive(Debug)]
pub struct Settings {
    domain: String,
    username: String,
    password: String,
}

impl View for Settings {
    type V = SettingsView;

    closed spec fn view(&self) -> SettingsView {
        SettingsView { domain: self.domain@, username: self.username@, password: self.password@ }
    }
}

impl Settings {
    /// Settings for the API at `domain`, to be used as `username`.
    ///
    /// `domain` is taken as it is: paths are written directly behind it,
    /// whether or not it ends in a slash.
    pub fn new(domain: String, username: String, password: String) -> (settings: Settings)
        ensures
            settings@ == (SettingsView { domain: domain@, username: username@, password: password@ }),
    {
        Settings { domain, username, password }
    }

    /// The base URL.
    pub fn domain(&self) -> (text: &str)
        ensures
            text@ == self@.domain,
    {
        self.domain.as_str()
    }

    /// The name of the account.
    pub fn username(&self) -> (text: &str)
        ensures
            text@ == self@.username,
    {
        self.username.as_str()
    }

    /// The password of the account.
    pub fn password(&self) -> (text: &str)
        ensures
            text@ == self@.password,
    {
        self.password.as_str()
    }
}

impl Clone for Settings {
    fn clone(&self) -> (copy: Settings)
        ensures
            copy@ == self@,
    {
        Settings {
            domain: self.domain.clone(),
            username: self.username.clone(),
            password: self.password.clone(),
        }
    }
}

} // verus!
