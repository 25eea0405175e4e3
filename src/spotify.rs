//! The destination service: its client handle and the entities the library
//! reads from it.

use vstd::prelude::*;

verus! {

/// A handle on the destination service: the bearer credential to send.
pub struct SpotifyClient {
    pub token: String,
}

impl SpotifyClient {
    pub fn new(token: String) -> (r: Self)
        ensures
            r.token == token,
    {
        Self { token }
    }
}

/// The signed-in user of the destination service.
pub struct SpotifyUser {
    pub country: String,
    pub display_name: String,
    pub email: String,
    pub explicit_content: ExplicitContent,
    pub external_urls: ExternalUrls,
    pub followers: Followers,
    pub href: String,
    pub id: String,
    pub images: Vec<Image>,
    pub product: String,
    pub type_: String,
    pub uri: String,
}

/// The user's explicit-content settings.
pub struct ExplicitContent {
    pub filter_enabled: bool,
    pub filter_locked: bool,
}

/// Links to an entity on the web.
pub struct ExternalUrls {
    pub spotify: String,
}

/// An entity's followers.
pub struct Followers {
    pub href: Option<String>,
    pub total: u32,
}

/// A picture of an entity.
pub struct Image {
    pub url: String,
    pub height: Option<u32>,
    pub width: Option<u32>,
}

} // verus!
