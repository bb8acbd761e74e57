//! The connection shared by the calls of one client handle: the endpoint it
//! goes to, the channel once it is established, and the credentials stamped
//! on every call.

use vstd::prelude::*;

verus! {

/// An endpoint address.
#[verifier::external_type_specification]
#[verifier::external_body]
pub struct ExUri(http::Uri);

/// An established connection to an endpoint.
#[verifier::external_type_specification]
#[verifier::external_body]
pub struct ExChannel(tonic::transport::Channel);

/// Whether a text is an address that `http::Uri` accepts.
pub uninterp spec fn valid_uri(s: Seq<char>) -> bool;

/// Relies on `http::Uri::try_from(&str)`, which accepts or rejects the text
/// by its characters alone (`Uri::from_static` panics on exactly the texts
/// it rejects).
#[verifier::external_body]
pub(crate) fn parse_uri(s: &str) -> (r: Option<http::Uri>)
    ensures
        r is Some == valid_uri(s@),
{
    http::Uri::try_from(s).ok()
}

/// The connection state of one client handle. The channel is established on
/// first use and then kept for the life of the handle: it is never replaced.
#[derive(Debug)]
pub struct Client {
    uri: http::Uri,
    token: Option<String>,
    channel: Option<tonic::transport::Channel>,
}

impl Client {
    pub closed spec fn endpoint(&self) -> http::Uri {
        self.uri
    }

    pub closed spec fn credentials(&self) -> Option<Seq<char>> {
        match self.token {
            Some(t) => Some(t@),
            None => None,
        }
    }

    pub closed spec fn connection(&self) -> Option<tonic::transport::Channel> {
        self.channel
    }

    /// A handle for the endpoint `uri`, not yet connected and without
    /// credentials.
    pub fn new(uri: http::Uri) -> (r: Client)
        ensures
            r.endpoint() == uri,
            r.connection() is None,
            r.credentials() is None,
    {
        Client { uri, token: None, channel: None }
    }

    /// The endpoint that the handle connects to.
    pub fn uri(&self) -> (r: &http::Uri)
        ensures
            *r == self.endpoint(),
    {
        &self.uri
    }

    /// The established channel, if there is one.
    pub fn channel(&self) -> (r: Option<&tonic::transport::Channel>)
        ensures
            match self.connection() {
                Some(c) => r matches Some(d) && *d == c,
                None => r is None,
            },
    {
        match &self.channel {
            Some(c) => Some(c),
            None => None,
        }
    }

    /// Keeps a newly established channel for all later calls. A handle that
    /// already has one keeps it.
    pub fn remember_channel(&mut self, channel: tonic::transport::Channel)
        ensures
            final(self).endpoint() == old(self).endpoint(),
            final(self).credentials() == old(self).credentials(),
            final(self).connection() == match old(self).connection() {
                Some(c) => Some(c),
                None => Some(channel),
            },
    {
        if self.channel.is_none() {
            self.channel = Some(channel);
        }
    }

    /// Sets the access token stamped on every later call.
    pub fn set_access_token(&mut self, token: String)
        ensures
            final(self).endpoint() == old(self).endpoint(),
            final(self).connection() == old(self).connection(),
            final(self).credentials() == Some(token@),
    {
        self.token = Some(token);
    }

    /// The value of the authorization header stamped on each call: the
    /// access token as a bearer credential, if there is one.
    pub fn authorization(&self) -> (r: Option<String>)
        ensures
            match self.credentials() {
                Some(t) => r matches Some(h) && h@ == "Bearer "@ + t,
                None => r is None,
            },
    {
        match &self.token {
            Some(t) => Some(String::from_str("Bearer ").concat(t.as_str())),
            None => None,
        }
    }
}

} // verus!
