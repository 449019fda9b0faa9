//! Credentials, the client's identity, and per-module options.

use vstd::prelude::*;

use crate::text::concatenate;

verus! {

/// This library's package name, as it appears in the client identity.
pub const PKG_NAME: &'static str = "libzulip";

/// This library's version, as it appears in the client identity.
pub const PKG_VERSION: &'static str = "0.1.0";

/// The identity string sent with requests.
#[derive(Clone, Debug, PartialEq, PartialOrd)]
pub struct UserAgent {
    s: String,
}

/// The key used, with the account's email, to authenticate each call.
#[derive(Clone, Debug, PartialEq, PartialOrd)]
pub struct ApiKey {
    key: String,
}

/// Options for the messaging operations.
#[derive(Clone, Copy, Debug, PartialEq, Eq, PartialOrd, Structural)]
pub struct MessagesConfig {
    pub read_by_sender: bool,
}

/// `<client>/<version>, <library>/<library version> (Rust)`.
pub open spec fn user_agent_text(client_name: Seq<char>, version: Seq<char>) -> Seq<char> {
    client_name + "/"@ + version + ", "@ + PKG_NAME@ + "/"@ + PKG_VERSION@ + " (Rust)"@
}

impl View for ApiKey {
    type V = Seq<char>;

    closed spec fn view(&self) -> Seq<char> {
        self.key@
    }
}

impl View for UserAgent {
    type V = Seq<char>;

    closed spec fn view(&self) -> Seq<char> {
        self.s@
    }
}

impl ApiKey {
    pub fn new(key: &str) -> (r: Self)
        ensures
            r@ == key@,
    {
        ApiKey { key: String::from_str(key) }
    }

    pub fn get(&self) -> (r: String)
        ensures
            r@ == self@,
    {
        self.key.clone()
    }

    /// Replaces the key.
    pub fn set(&mut self, key: &str)
        ensures
            final(self)@ == key@,
    {
        self.key = String::from_str(key);
    }
}

impl UserAgent {
    /// Creates the identity of a client called `client_name` at `version`,
    /// followed by this library's own name and version.
    pub fn new(client_name: &str, version: &str) -> (r: Self)
        ensures
            r@ == user_agent_text(client_name@, version@),
    {
        let mut s = concatenate(client_name, "/");
        s.append(version);
        s.append(", ");
        s.append(PKG_NAME);
        s.append("/");
        s.append(PKG_VERSION);
        s.append(" (Rust)");
        UserAgent { s }
    }

    /// Returns the identity string.
    pub fn get(&mut self) -> (r: String)
        ensures
            r@ == old(self)@,
            *final(self) == *old(self),
    {
        self.s.clone()
    }
}

} // verus!
