//! Client-side logic for a streaming platform's event notification service:
//! the socket session's state machine, the decoding of its messages into
//! typed events, and the tables that describe subscriptions and scopes.

pub mod api;
pub mod eventsub;
pub mod json;
pub mod token;

use vstd::prelude::*;
use crate::api::APIError;
use crate::api::NewAccessTokenResponse;
use crate::api::TwitchAPI;
use crate::eventsub::EventsubError;

verus! {

/// What can go wrong between this library and the service.
#[derive(Debug)]
pub enum TwitchError {
    /// An answer could not be read; the text says why.
    ParseError(String),
    /// The event session could not be established.
    EventsubError(EventsubError),
    /// A request failed.
    APIError(APIError),
}

/// A client of the service.
#[derive(Debug)]
pub struct Twitch {
    pub api: TwitchAPI,
}

impl TwitchError {
    /// The error of a failed request.
    pub fn from(v: APIError) -> (r: TwitchError)
        ensures
            r == TwitchError::APIError(v),
    {
        TwitchError::APIError(v)
    }

    /// The error of a session that could not be established.
    pub fn from_eventsub(v: EventsubError) -> (r: TwitchError)
        ensures
            r == TwitchError::EventsubError(v),
    {
        TwitchError::EventsubError(v)
    }
}

impl Twitch {
    pub fn new(client_id: String, access_token: String) -> (r: Self)
        ensures
            r.api.client_id == client_id,
            r.api.token == access_token,
    {
        Self { api: TwitchAPI::new(client_id, access_token) }
    }

    /// The body of the request that trades a refresh token for new tokens.
    pub fn refresh_request(client_id: &str, client_secret: &str, refresh_token: &str) -> (r: String)
        ensures
            r@ == "client_id="@ + client_id@ + "&client_secret="@ + client_secret@
                + "&grant_type=refresh_token&refresh_token="@ + refresh_token@,
    {
        let mut body = "client_id=".to_owned();
        body.append(client_id);
        body.append("&client_secret=");
        body.append(client_secret);
        body.append("&grant_type=refresh_token&refresh_token=");
        body.append(refresh_token);
        body
    }

    /// The access token and the refresh token of an answer to that request.
    /// An answer without a refresh token is an error.
    pub fn tokens_of(response: NewAccessTokenResponse) -> (r: Result<(String, String), TwitchError>)
        ensures
            match response.refresh_token {
                Some(refresh) => r == Ok::<(String, String), TwitchError>(
                    (response.access_token, refresh),
                ),
                None => r matches Err(TwitchError::APIError(APIError::ConnectionError(text)))
                    && text@ == "refresh token missing from response"@,
            },
    {
        match response.refresh_token {
            Some(refresh) => Ok((response.access_token, refresh)),
            None => Err(
                TwitchError::from(
                    APIError::ConnectionError("refresh token missing from response".to_owned()),
                ),
            ),
        }
    }
}

} // verus!
