//! The service's addresses, the errors of a request, and the rules by which
//! the answers to a request are gathered.

use vstd::prelude::*;

verus! {

/// Why a request failed.
#[derive(Debug)]
pub enum APIError {
    /// The answer could not be read; the text says why.
    ParseError(String),
    /// The service could not be reached or refused; the text says why.
    ConnectionError(String),
    /// The token was not accepted.
    Unauthorized,
    /// The token lacks a scope that the request needs.
    Forbidden,
    /// The answer does not say whether more follows.
    NoPagination,
}

/// The addresses of the service.
#[derive(Clone, Copy, Debug, PartialEq, Eq, Structural)]
pub enum APIEndpoint {
    Token,
    Subscriptions,
    Websocket,
}

/// How a request went wrong, as the transport reports it: an answer with a
/// status that is no success, or no answer at all.
#[derive(Clone, Copy, Debug, PartialEq, Eq, Structural)]
pub enum RequestFailure {
    Status(u16),
    Transport,
}

/// The tokens that the service hands out.
#[derive(Debug)]
pub struct NewAccessTokenResponse {
    pub access_token: String,
    pub refresh_token: Option<String>,
}

/// Where the next part of a list begins, if there is one.
#[derive(Debug)]
pub struct Pagination {
    pub cursor: Option<String>,
}

/// One part of a list as the service sends it.
#[derive(Debug)]
pub struct DataList<T> {
    pub data: Vec<T>,
    pub pagination: Option<Pagination>,
}

/// The credentials that every request carries.
#[derive(Debug)]
pub struct TwitchAPI {
    pub client_id: String,
    pub token: String,
}

/// The character of a digit.
pub open spec fn digit(d: nat) -> char {
    if d == 0 {
        '0'
    } else if d == 1 {
        '1'
    } else if d == 2 {
        '2'
    } else if d == 3 {
        '3'
    } else if d == 4 {
        '4'
    } else if d == 5 {
        '5'
    } else if d == 6 {
        '6'
    } else if d == 7 {
        '7'
    } else if d == 8 {
        '8'
    } else {
        '9'
    }
}

/// A number written in decimal, without leading zeros.
pub open spec fn spec_decimal(n: nat) -> Seq<char>
    decreases n,
{
    if n < 10 {
        seq![digit(n)]
    } else {
        spec_decimal(n / 10).push(digit(n % 10))
    }
}

/// A digit as a text.
fn digit_text(d: u16) -> (r: &'static str)
    requires
        d < 10,
    ensures
        r@ == seq![digit(d as nat)],
{
    proof {
        reveal_strlit("0");
        reveal_strlit("1");
        reveal_strlit("2");
        reveal_strlit("3");
        reveal_strlit("4");
        reveal_strlit("5");
        reveal_strlit("6");
        reveal_strlit("7");
        reveal_strlit("8");
        reveal_strlit("9");
    }
    let text = if d == 0 {
        "0"
    } else if d == 1 {
        "1"
    } else if d == 2 {
        "2"
    } else if d == 3 {
        "3"
    } else if d == 4 {
        "4"
    } else if d == 5 {
        "5"
    } else if d == 6 {
        "6"
    } else if d == 7 {
        "7"
    } else if d == 8 {
        "8"
    } else {
        "9"
    };
    assert(text@ =~= seq![digit(d as nat)]);
    text
}

/// Writes a number in decimal.
pub fn decimal(n: u16) -> (r: String)
    ensures
        r@ == spec_decimal(n as nat),
    decreases n,
{
    if n < 10 {
        digit_text(n).to_owned()
    } else {
        let mut text = decimal(n / 10);
        text.append(digit_text(n % 10));
        assert(text@ =~= spec_decimal(n as nat / 10).push(digit(n as nat % 10)));
        text
    }
}

impl APIEndpoint {
    /// The address.
    pub open spec fn spec_endpoint(self) -> Seq<char> {
        match self {
            APIEndpoint::Token => "https://id.twitch.tv/oauth2/token"@,
            APIEndpoint::Subscriptions => "https://api.twitch.tv/helix/eventsub/subscriptions"@,
            APIEndpoint::Websocket => "wss://eventsub.wss.twitch.tv/ws"@,
        }
    }

    /// The address.
    pub fn endpoint(&self) -> (r: &'static str)
        ensures
            r@ == self.spec_endpoint(),
    {
        match self {
            APIEndpoint::Token => "https://id.twitch.tv/oauth2/token",
            APIEndpoint::Subscriptions => "https://api.twitch.tv/helix/eventsub/subscriptions",
            APIEndpoint::Websocket => "wss://eventsub.wss.twitch.tv/ws",
        }
    }
}

impl APIError {
    /// The error that a failed request stands for: 401 and 403 have errors of
    /// their own, every other status is named in the text.
    pub fn from(value: RequestFailure) -> (r: APIError)
        ensures
            match value {
                RequestFailure::Status(401) => r is Unauthorized,
                RequestFailure::Status(403) => r is Forbidden,
                RequestFailure::Status(code) => r matches APIError::ConnectionError(text) && text@
                    == "status code: "@ + spec_decimal(code as nat),
                RequestFailure::Transport => r matches APIError::ConnectionError(text) && text@
                    == "failed to reach twitch"@,
            },
    {
        match value {
            RequestFailure::Status(401) => APIError::Unauthorized,
            RequestFailure::Status(403) => APIError::Forbidden,
            RequestFailure::Status(code) => {
                let mut text = "status code: ".to_owned();
                text.append(decimal(code).as_str());
                APIError::ConnectionError(text)
            },
            RequestFailure::Transport => APIError::ConnectionError(
                "failed to reach twitch".to_owned(),
            ),
        }
    }

    /// The error of an answer that could not be read; `why` is the reader's
    /// word for it.
    pub fn from_read_failure(why: String) -> (r: APIError)
        ensures
            r == APIError::ParseError(why),
    {
        APIError::ParseError(why)
    }
}

impl TwitchAPI {
    pub fn new(client_id: String, token: String) -> (r: Self)
        ensures
            r.client_id == client_id,
            r.token == token,
    {
        Self { client_id, token }
    }

    /// The value of the header that authorizes a request.
    pub fn authorization(&self) -> (r: String)
        ensures
            r@ == "Bearer "@ + self.token@,
    {
        let mut text = "Bearer ".to_owned();
        text.append(self.token.as_str());
        text
    }

    /// Takes in one part of a list that is fetched part by part: its items
    /// are added to those gathered so far. The result is the cursor to ask
    /// the next part with, or `None` after the last part. A part that says
    /// nothing of pages is an error, and then nothing is added.
    pub fn get<T>(parsed: &mut Vec<T>, page: DataList<T>) -> (r: Result<Option<String>, APIError>)
        ensures
            match page.pagination {
                Some(pagination) => r == Ok::<Option<String>, APIError>(pagination.cursor)
                    && final(parsed)@ == old(parsed)@ + page.data@,
                None => r is Err && r->Err_0 is NoPagination && final(parsed)@ == old(parsed)@,
            },
    {
        let DataList { data, pagination } = page;
        let mut data = data;
        match pagination {
            Some(pagination) => {
                parsed.append(&mut data);
                Ok(pagination.cursor)
            },
            None => Err(APIError::NoPagination),
        }
    }

    /// The object that the answer to a posted request holds: the last of its
    /// data. An answer without data is an error.
    pub fn post<R>(response: DataList<R>) -> (r: Result<R, APIError>)
        ensures
            match r {
                Ok(object) => response.data@.len() > 0 && object == response.data@.last(),
                Err(error) => response.data@.len() == 0 && (error matches APIError::ParseError(
                    text,
                ) && text@ == "data missing in response"@),
            },
    {
        let mut data = response.data;
        match data.pop() {
            Some(object) => Ok(object),
            None => Err(APIError::ParseError("data missing in response".to_owned())),
        }
    }
}

} // verus!
