//! Information on a server: its settings, kept in a cache that refreshes once
//! its interval has passed, and its linkifiers.

use vstd::prelude::*;

use std::collections::HashMap;

use crate::error::{check_reply, reply_outcome, Operation, ResponseError, ZulipError};
use crate::request::{builds, ApiBase, Method, Request};

verus! {

/// The interval after which cached settings are refreshed by default, in
/// nanoseconds: five minutes.
pub const DEFAULT_CACHE_REFRESH_INTERVAL: u64 = 300_000_000_000;

/// A server's settings.
#[derive(Clone, Debug)]
pub struct ServerSettings {
    pub authentication_methods: HashMap<String, serde_json::Value>,
    pub external_authentication_methods: Vec<ExternalAuthenticationMethod>,
    pub zulip_feature_level: u64,
    pub zulip_version: String,
    pub zulip_merge_base: String,
    pub push_notifications_enabled: bool,
    pub is_incompatible: bool,
    pub email_auth_enabled: bool,
    pub require_email_format_usernames: bool,
    /// The realm's address, under its deprecated name.
    pub realm_uri: String,
    pub realm_name: String,
    pub realm_icon: String,
    pub realm_description: String,
    pub realm_web_public_access_enabled: bool,
}

/// A way to log in through another service.
#[derive(Clone, Debug)]
pub struct ExternalAuthenticationMethod {
    pub name: String,
    pub display_name: String,
    pub display_icon: String,
    pub login_url: String,
    pub signup_url: String,
}

/// The reply to a linkifiers request.
#[derive(Clone, Debug)]
pub struct LinkifiersResponse {
    pub result: String,
    pub msg: String,
    pub linkifiers: Linkifiers,
}

/// The linkifiers of a realm.
pub type Linkifiers = Vec<Linkifier>;

/// A rule that turns text matching `pattern` into a link.
#[derive(Clone, Debug)]
pub struct Linkifier {
    pub pattern: String,
    pub url_template: String,
    pub id: u64,
}

impl ServerSettings {
    /// The realm's address, read from its deprecated field as it stands.
    pub fn realm_url(&self) -> (r: String)
        ensures
            r@ == self.realm_uri@,
    {
        self.realm_uri.clone()
    }
}

/// Whether settings refreshed at `last_updated` are stale at `now` under
/// `interval`: more than `interval` has passed. Time never runs backwards
/// here: a `now` before `last_updated` counts as no time passed.
pub open spec fn is_stale(last_updated: u64, now: u64, interval: u64) -> bool {
    now > last_updated && now - last_updated > interval
}

/// What a read of the cache should do.
#[derive(Clone, Copy, Debug, PartialEq, Eq, Structural)]
pub enum CacheAction {
    /// Return the held settings; no call is made.
    UseCached,
    /// Fetch the settings, then hold and return them.
    Refresh,
}

/// A server's settings with the time they were fetched. Times are in
/// nanoseconds from an origin that the owner picks and keeps.
///
/// A cache always holds settings: it is made from a successful fetch. Only a
/// completed refresh changes the settings or the time.
#[derive(Clone, Debug)]
pub struct ServerSettingsCache {
    last_updated: u64,
    settings: ServerSettings,
}

impl ServerSettingsCache {
    /// The settings held.
    pub closed spec fn held(&self) -> ServerSettings {
        self.settings
    }

    /// When the held settings were fetched.
    pub closed spec fn stamp(&self) -> u64 {
        self.last_updated
    }

    /// A cache holding `settings`, fetched at `now`.
    pub fn new(settings: ServerSettings, now: u64) -> (r: Self)
        ensures
            r.held() == settings,
            r.stamp() == now,
    {
        ServerSettingsCache { last_updated: now, settings }
    }

    /// What a read at `now` does under the refresh interval in force at that
    /// moment: refresh exactly when the held settings are stale.
    pub fn next_action(&self, now: u64, interval: u64) -> (r: CacheAction)
        ensures
            r == (if is_stale(self.stamp(), now, interval) {
                CacheAction::Refresh
            } else {
                CacheAction::UseCached
            }),
    {
        if now > self.last_updated && now - self.last_updated > interval {
            CacheAction::Refresh
        } else {
            CacheAction::UseCached
        }
    }

    /// Records a completed refresh at `now`: the new settings replace the old
    /// ones whole.
    pub fn update(&mut self, settings: ServerSettings, now: u64)
        ensures
            final(self).held() == settings,
            final(self).stamp() == now,
    {
        self.settings = settings;
        self.last_updated = now;
    }

    /// A read at `now` under the interval in force: the held settings where
    /// they are fresh, and `None` where a refresh must come first.
    pub fn get(&self, now: u64, interval: u64) -> (r: Option<&ServerSettings>)
        ensures
            r is None <==> is_stale(self.stamp(), now, interval),
            r is Some ==> *r.unwrap() == self.held(),
    {
        match self.next_action(now, interval) {
            CacheAction::UseCached => Some(&self.settings),
            CacheAction::Refresh => None,
        }
    }

    /// The settings held.
    pub fn settings(&self) -> (r: &ServerSettings)
        ensures
            *r == self.held(),
    {
        &self.settings
    }

    /// When the held settings were fetched.
    pub fn last_updated(&self) -> (r: u64)
        ensures
            r == self.stamp(),
    {
        self.last_updated
    }
}

/// Reads of the cache: one no later than `interval` after the last refresh
/// uses the held settings; one later than that refreshes, and once that
/// refresh is recorded, a read at the same moment uses the new settings and
/// the time of the refresh is the new time.
pub proof fn cache_refreshes_once_stale(
    c: ServerSettingsCache,
    interval: u64,
    early: u64,
    late: u64,
    fetched: ServerSettings,
    after: ServerSettingsCache,
)
    requires
        c.stamp() <= early,
        early - c.stamp() <= interval,
        late > c.stamp(),
        late - c.stamp() > interval,
        after.held() == fetched,
        after.stamp() == late,
    ensures
        !is_stale(c.stamp(), early, interval),
        is_stale(c.stamp(), late, interval),
        !is_stale(after.stamp(), late, interval),
        after.held() == fetched,
{
}

impl ApiBase {
    /// The request for the server's settings: a `GET` of `server_settings`,
    /// which needs no credentials.
    pub fn server_settings_request(&self) -> (r: Result<Request, ZulipError>)
        ensures
            builds(self@, "server_settings"@, Method::Get, Seq::empty(), false, r),
    {
        let form: Vec<(String, String)> = Vec::new();
        assert(form.deep_view() =~= Seq::empty());
        self.request("server_settings", Method::Get, form, false)
    }

    /// The request for the realm's linkifiers: an authenticated `GET` of
    /// `realm/linkifiers`.
    pub fn linkifiers_request(&self) -> (r: Result<Request, ZulipError>)
        ensures
            builds(self@, "realm/linkifiers"@, Method::Get, Seq::empty(), true, r),
    {
        let form: Vec<(String, String)> = Vec::new();
        assert(form.deep_view() =~= Seq::empty());
        self.request("realm/linkifiers", Method::Get, form, true)
    }
}

/// Decides a reply with server settings: the settings where the reply embeds
/// no error.
pub fn finish_server_settings(error: &Option<ResponseError>, settings: ServerSettings) -> (r: Result<
    ServerSettings,
    ZulipError,
>)
    ensures
        error is None ==> (r matches Ok(s) && s == settings),
        reply_outcome(Operation::ServerSettings, *error, match r {
            Ok(_) => Ok(()),
            Err(e) => Err(e),
        }),
{
    match check_reply(Operation::ServerSettings, error) {
        Ok(()) => Ok(settings),
        Err(e) => Err(e),
    }
}

/// Decides a reply with linkifiers: the reply where it embeds no error.
pub fn finish_linkifiers(error: &Option<ResponseError>, resp: LinkifiersResponse) -> (r: Result<
    LinkifiersResponse,
    ZulipError,
>)
    ensures
        error is None ==> (r matches Ok(x) && x == resp),
        reply_outcome(Operation::Linkifiers, *error, match r {
            Ok(_) => Ok(()),
            Err(e) => Err(e),
        }),
{
    match check_reply(Operation::Linkifiers, error) {
        Ok(()) => Ok(resp),
        Err(e) => Err(e),
    }
}

} // verus!
