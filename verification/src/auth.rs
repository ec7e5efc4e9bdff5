//! How the client authenticates with Azure Speech Services.
use vstd::prelude::*;

verus! {

/// Auth struct, used to authenticate with Azure Speech Services.
#[derive(Clone, Debug)]
pub enum Auth {
    Subscription { region: String, key: String },
    /// A host given by its URL, held as the URL's text.
    Host { host: String, key: String },
}

impl Auth {
    /// Create a new Auth instance from a subscription key and a region.
    pub fn from_subscription(region: String, key: String) -> (r: Self)
        ensures
            r == (Auth::Subscription { region, key }),
    {
        Auth::Subscription { region, key }
    }

    /// Create a new Auth instance directly from a host and a region. This is useful for accessing
    /// Azure containers. The host is the text of its URL.
    pub fn from_host(host: String, key: String) -> (r: Self)
        ensures
            r == (Auth::Host { host, key }),
    {
        Auth::Host { host, key }
    }

    /// The subscription key.
    pub fn key(&self) -> (r: &str)
        ensures
            r@ == match self {
                Auth::Subscription { key, .. } => key@,
                Auth::Host { key, .. } => key@,
            },
    {
        match self {
            Auth::Subscription { key, .. } => key.as_str(),
            Auth::Host { key, .. } => key.as_str(),
        }
    }
}

} // verus!
