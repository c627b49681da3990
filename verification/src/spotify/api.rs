//! Construction of the request lines sent to the catalog service: endpoint
//! URLs, the authorization header value, and the form of a token refresh.

use vstd::prelude::*;
use vstd::string::StringExecFns;

pub mod playlist;

verus! {

/// The URL that the audio features of the song with the given ID are fetched
/// from.
pub fn audio_features_url(song_id: &str) -> (url: String)
    ensures
        url@ == "https://api.spotify.com/v1/audio-features/"@ + song_id@,
{
    "https://api.spotify.com/v1/audio-features/".to_owned().concat(song_id)
}

/// The URL that the playlist with the given ID is fetched from.
pub fn playlist_url(playlist_id: &str) -> (url: String)
    ensures
        url@ == "https://api.spotify.com/v1/playlists/"@ + playlist_id@,
{
    "https://api.spotify.com/v1/playlists/".to_owned().concat(playlist_id)
}

/// The authorization header value carrying a session's access token.
pub fn bearer_header(access_token: &str) -> (header: String)
    ensures
        header@ == "Bearer "@ + access_token@,
{
    "Bearer ".to_owned().concat(access_token)
}

/// The form fields of an access-token refresh request, in order: the grant
/// type, the refresh token, and the client's ID and secret.
pub fn token_request_params(
    refresh_token: &str,
    client_id: &str,
    client_secret: &str,
) -> (params: Vec<(String, String)>)
    ensures
        params@.len() == 4,
        params@[0].0@ == "grant_type"@ && params@[0].1@ == "refresh_token"@,
        params@[1].0@ == "refresh_token"@ && params@[1].1@ == refresh_token@,
        params@[2].0@ == "client_id"@ && params@[2].1@ == client_id@,
        params@[3].0@ == "client_secret"@ && params@[3].1@ == client_secret@,
{
    let mut params: Vec<(String, String)> = Vec::new();
    params.push(("grant_type".to_owned(), "refresh_token".to_owned()));
    params.push(("refresh_token".to_owned(), refresh_token.to_owned()));
    params.push(("client_id".to_owned(), client_id.to_owned()));
    params.push(("client_secret".to_owned(), client_secret.to_owned()));
    params
}

} // verus!
