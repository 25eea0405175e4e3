//! The credentials configuration of both catalog services.

use vstd::prelude::*;

verus! {

/// The client registration with each service.
pub struct Config {
    pub tidal: TidalConfig,
    pub spotify: SpotifyConfig,
}

/// The client registration with the source service.
pub struct TidalConfig {
    pub client_id: String,
    pub client_secret: String,
    pub redirect_uri: String,
}

/// The client registration with the destination service.
pub struct SpotifyConfig {
    pub client_id: String,
    pub client_secret: String,
    pub redirect_uri: String,
}

/// Where each service sends the user back after authorization, unless
/// configured otherwise.
pub const DEFAULT_REDIRECT_URI: &'static str = "http://localhost:8080";

impl Config {
    /// The configuration written out for the user to fill in where there is
    /// none: placeholders for the client registrations, and the default
    /// redirect address.
    pub fn template() -> (r: Config)
        ensures
            r.tidal.client_id@ == "your_tidal_client_id"@,
            r.tidal.client_secret@ == "your_tidal_client_secret"@,
            r.tidal.redirect_uri@ == DEFAULT_REDIRECT_URI@,
            r.spotify.client_id@ == "your_spotify_client_id"@,
            r.spotify.client_secret@ == "your_spotify_client_secret"@,
            r.spotify.redirect_uri@ == DEFAULT_REDIRECT_URI@,
    {
        Config {
            tidal: TidalConfig {
                client_id: "your_tidal_client_id".to_owned(),
                client_secret: "your_tidal_client_secret".to_owned(),
                redirect_uri: DEFAULT_REDIRECT_URI.to_owned(),
            },
            spotify: SpotifyConfig {
                client_id: "your_spotify_client_id".to_owned(),
                client_secret: "your_spotify_client_secret".to_owned(),
                redirect_uri: DEFAULT_REDIRECT_URI.to_owned(),
            },
        }
    }
}

} // verus!
