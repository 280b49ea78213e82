//! Request-side rules of the API client: endpoint paths, the authorization
//! header, how a response status is classified, and the response envelope.
use vstd::prelude::*;

verus! {

/// The error type of the HTTP client (reqwest::Error), carried opaquely in
/// `ClientError::HTTP`.
#[verifier::external_type_specification]
#[verifier::external_body]
pub struct ExHttpError(reqwest::Error);

/// Builder errors
#[derive(Debug, Clone, Copy, PartialEq, Eq, Structural)]
pub enum BuilderError {
    /// Failed to convert a URL
    URLConversion,
    /// No API key was specified
    NoAPIKey,
}

/// Client errors
#[derive(Debug)]
pub enum ClientError {
    /// HTTP error
    HTTP(reqwest::Error),
    /// Invalid response from API
    InvalidResponse,
    /// API error
    API(String),
    /// Ratelimited by API
    Ratelimited,
}

/// Envelope around every API response.
#[derive(Debug, Clone, PartialEq, Eq)]
pub struct ApiResponse<Data> {
    /// Whether the API reports success
    pub success: bool,
    /// Error string, if any
    pub error: Option<String>,
    /// Message string; when present the call has failed with it
    pub message: Option<String>,
    /// The payload
    pub data: Data,
}

impl<Data> ApiResponse<Data> {
    /// Consumes self and returns response data. A message takes priority over
    /// the payload: when one is present it is returned as the error, whatever
    /// `success` and `data` hold.
    pub fn into_data(self) -> (r: Result<Data, String>)
        ensures
            self.message matches Some(m) ==> r == Err::<Data, String>(m),
            self.message is None ==> r == Ok::<Data, String>(self.data),
    {
        match self.message {
            Some(m) => Err(m),
            None => Ok(self.data),
        }
    }
}

/// The API key that a builder holds, or `NoAPIKey` when none was set.
pub fn require_key(api_key: Option<String>) -> (r: Result<String, BuilderError>)
    ensures
        api_key matches Some(k) ==> r == Ok::<String, BuilderError>(k),
        api_key is None ==> r == Err::<String, BuilderError>(BuilderError::NoAPIKey),
{
    match api_key {
        Some(k) => Ok(k),
        None => Err(BuilderError::NoAPIKey),
    }
}

/// Whether an HTTP status code is a success (2xx).
pub open spec fn is_success_status(status: u16) -> bool {
    200 <= status < 300
}

/// Classify the status of a response: a success passes, 429 means that the
/// API rate-limited the caller, and any other status is an invalid response.
pub fn check_status(status: u16) -> (r: Result<(), ClientError>)
    ensures
        is_success_status(status) ==> r is Ok,
        status == 429 ==> (r matches Err(ClientError::Ratelimited)),
        !is_success_status(status) && status != 429 ==> (r matches Err(
            ClientError::InvalidResponse,
        )),
{
    if 200 <= status && status < 300 {
        Ok(())
    } else if status == 429 {
        Err(ClientError::Ratelimited)
    } else {
        Err(ClientError::InvalidResponse)
    }
}

/// Value of the `Authorization` header: the raw key after `Basic `, not
/// base64-encoded.
pub fn authorization(key: &str) -> (r: String)
    ensures
        r@ == "Basic "@ + key@,
{
    let mut r = "Basic ".to_owned();
    r.append(key);
    r
}

/// The character of a decimal digit.
pub open spec fn digit_char(d: nat) -> char {
    if d == 0 {
        '0'
    } else if d == 1 {
        '1'
    } else if d == 2 {
        '2'
    } else if d == 3 {
        '3'
    } else if d == 4 {
        '4'
    } else if d == 5 {
        '5'
    } else if d == 6 {
        '6'
    } else if d == 7 {
        '7'
    } else if d == 8 {
        '8'
    } else {
        '9'
    }
}

/// The decimal notation of `n`, without leading zeros.
pub open spec fn decimal(n: nat) -> Seq<char>
    decreases n,
{
    if n < 10 {
        seq![digit_char(n)]
    } else {
        decimal(n / 10) + seq![digit_char(n % 10)]
    }
}

fn digit_str(d: u64) -> (r: &'static str)
    requires
        d < 10,
    ensures
        r@ == seq![digit_char(d as nat)],
{
    if d == 0 {
        proof { reveal_strlit("0"); }
        "0"
    } else if d == 1 {
        proof { reveal_strlit("1"); }
        "1"
    } else if d == 2 {
        proof { reveal_strlit("2"); }
        "2"
    } else if d == 3 {
        proof { reveal_strlit("3"); }
        "3"
    } else if d == 4 {
        proof { reveal_strlit("4"); }
        "4"
    } else if d == 5 {
        proof { reveal_strlit("5"); }
        "5"
    } else if d == 6 {
        proof { reveal_strlit("6"); }
        "6"
    } else if d == 7 {
        proof { reveal_strlit("7"); }
        "7"
    } else if d == 8 {
        proof { reveal_strlit("8"); }
        "8"
    } else {
        proof { reveal_strlit("9"); }
        "9"
    }
}

/// The key under which the API lists a game: its identifier in decimal.
pub fn id_key(id: u64) -> (r: String)
    ensures
        r@ == decimal(id as nat),
    decreases id,
{
    if id < 10 {
        digit_str(id).to_owned()
    } else {
        let mut r = id_key(id / 10);
        r.append(digit_str(id % 10));
        r
    }
}

/// The identifiers in decimal, joined by `+`.
pub open spec fn joined_ids(ids: Seq<u64>) -> Seq<char>
    decreases ids.len(),
{
    if ids.len() == 0 {
        Seq::empty()
    } else if ids.len() == 1 {
        decimal(ids[0] as nat)
    } else {
        joined_ids(ids.drop_last()) + "+"@ + decimal(ids.last() as nat)
    }
}

/// Path of the endpoint that lists the games of a category.
pub fn game_list_path(category: &str) -> (r: String)
    ensures
        r@ == "/v1/games/"@ + category@,
{
    let mut r = "/v1/games/".to_owned();
    r.append(category);
    r
}

/// Path of the endpoint that gives the details of a batch of games, or `None`
/// for an empty batch, which is answered without a request.
pub fn game_details_path(games: &[u64]) -> (r: Option<String>)
    ensures
        games@.len() == 0 ==> r is None,
        games@.len() > 0 ==> (r matches Some(p) && p@ == "/v1/game/"@ + joined_ids(games@)
            + "/info"@),
{
    if games.len() == 0 {
        return None;
    }
    let mut ids = id_key(games[0]);
    let mut i: usize = 1;
    assert(games@.subrange(0, 1).drop_last() =~= Seq::<u64>::empty());
    while i < games.len()
        invariant
            1 <= i <= games@.len(),
            ids@ == joined_ids(games@.subrange(0, i as int)),
        decreases games@.len() - i,
    {
        let key = id_key(games[i]);
        ids.append("+");
        ids.append(key.as_str());
        assert(games@.subrange(0, i + 1).drop_last() =~= games@.subrange(0, i as int));
        i = i + 1;
    }
    assert(games@.subrange(0, games@.len() as int) =~= games@);
    let mut p = "/v1/game/".to_owned();
    p.append(ids.as_str());
    p.append("/info");
    Some(p)
}

} // verus!
