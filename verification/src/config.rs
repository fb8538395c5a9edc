//! Where the update server is and how to log in to it.

use vstd::prelude::*;

verus! {

/// The host that is used when none is configured.
pub open spec fn default_host() -> Seq<char> {
    "http://localhost"@
}

/// Connection settings, made once at startup and handed to the client.
#[derive(Debug)]
pub struct HawkbitConfig {
    host: String,
    username: String,
    password: String,
    channel: Option<String>,
}

/// What a [`HawkbitConfig`] holds.
pub struct HawkbitConfigView {
    pub host: Seq<char>,
    pub username: Seq<char>,
    pub password: Seq<char>,
    pub channel: Option<Seq<char>>,
}

impl View for HawkbitConfig {
    type V = HawkbitConfigView;

    closed spec fn view(&self) -> HawkbitConfigView {
        HawkbitConfigView {
            host: self.host@,
            username: self.username@,
            password: self.password@,
            channel: match self.channel {
                Some(c) => Some(c@),
                None => None,
            },
        }
    }
}

impl Clone for HawkbitConfig {
    fn clone(&self) -> (copy: Self)
        ensures
            copy@ == self@,
    {
        HawkbitConfig {
            host: self.host.clone(),
            username: self.username.clone(),
            password: self.password.clone(),
            channel: match &self.channel {
                Some(c) => Some(c.clone()),
                None => None,
            },
        }
    }
}

impl HawkbitConfig {
    /// Settings from their parts. Without a host the server is looked for at
    /// `http://localhost`.
    pub fn new(
        host: Option<String>,
        username: String,
        password: String,
        channel: Option<String>,
    ) -> (config: Self)
        ensures
            config@.host == (match host {
                Some(h) => h@,
                None => default_host(),
            }),
            config@.username == username@,
            config@.password == password@,
            config@.channel == (match channel {
                Some(c) => Some(c@),
                None => None,
            }),
    {
        let host = match host {
            Some(h) => h,
            None => "http://localhost".to_owned(),
        };
        HawkbitConfig { host, username, password, channel }
    }

    /// The server's base address.
    pub fn host(&self) -> (h: &str)
        ensures
            h@ == self@.host,
    {
        self.host.as_str()
    }

    /// The account name for basic authentication.
    pub fn username(&self) -> (u: &str)
        ensures
            u@ == self@.username,
    {
        self.username.as_str()
    }

    /// The password for basic authentication.
    pub fn password(&self) -> (p: &str)
        ensures
            p@ == self@.password,
    {
        self.password.as_str()
    }

    /// The update channel this installation is bound to, if any.
    pub fn channel(&self) -> (c: Option<&str>)
        ensures
            match c {
                Some(text) => self@.channel == Some(text@),
                None => self@.channel is None,
            },
    {
        match &self.channel {
            Some(c) => Some(c.as_str()),
            None => None,
        }
    }
}

} // verus!
