//! The OAuth2 token: what the provider grants, what is kept on disk, and when
//! it has to be renewed.

use vstd::prelude::*;
use vstd::string::*;
use crate::clock::{representable, rfc3339_text, Timestamp, NANOS_PER_SECOND, YEAR_ZERO_UNIX_NANOS};
use crate::error::Error;
use crate::log::{push_to_log, Log};

verus! {

/// What a token is, in mathematical terms.
pub struct TokenView {
    pub access_token: Seq<char>,
    pub refresh_token: Option<Seq<char>>,
    /// Nanoseconds since the Unix epoch.
    pub expires: int,
    pub scopes: Seq<Seq<char>>,
}

/// A token as it is kept between runs. Its expiry is an instant from the
/// year 0 on, so that it always has an RFC 3339 form.
#[derive(Debug)]
pub struct Oauth2Token {
    access_token: String,
    refresh_token: Option<String>,
    expires: Timestamp,
    expires_text: String,
    scopes: Vec<String>,
}

/// The answer of the provider's token endpoint, as far as a run reads it.
#[derive(Debug)]
pub struct TokenResponse {
    pub access_token: String,
    pub refresh_token: Option<String>,
    /// The granted lifetime in whole seconds.
    pub expires_in: Option<u64>,
}

/// What was found where the token file should be.
#[derive(Debug)]
pub enum TokenFile {
    /// There is no such file.
    Missing,
    /// The file exists but could not be read; the text says why.
    Unreadable(String),
    /// The file was read but does not hold a token; the text says why.
    Malformed(String),
    /// The token the file holds.
    Present(Oauth2Token),
}

/// Where the token of this run comes from.
#[derive(Debug)]
pub enum TokenSource {
    /// The token file held it.
    Stored(Oauth2Token),
    /// It has to be acquired from the provider, with the operator's help.
    Acquire,
}

/// The result of the expiry check.
#[derive(Debug)]
pub enum TokenCheck {
    /// The token can still be used.
    Valid(Oauth2Token),
    /// The token has expired. `refresh_token` is what it holds to buy a new
    /// one with; a token that holds none cannot be renewed silently.
    Expired { refresh_token: Option<String> },
}

/// The views of the strings in `v`, in order.
pub open spec fn views(v: Seq<String>) -> Seq<Seq<char>> {
    Seq::new(v.len(), |i: int| v[i]@)
}

/// The view of an optional string.
pub open spec fn opt_view(s: Option<String>) -> Option<Seq<char>> {
    match s {
        Some(text) => Some(text@),
        None => None,
    }
}

/// The JSON string literal for `s`, quotes included.
pub uninterp spec fn json_string_text(s: Seq<char>) -> Seq<char>;

/// The first `k` of `items` as JSON strings, separated by commas.
pub open spec fn json_strings(items: Seq<Seq<char>>, k: nat) -> Seq<char>
    decreases k,
{
    if k == 0 {
        Seq::empty()
    } else if k == 1 {
        json_string_text(items[0])
    } else {
        json_strings(items, (k - 1) as nat) + ","@ + json_string_text(items[k - 1])
    }
}

/// The text of the token file for the token `t`: one JSON object with the
/// members `access_token`, `expires`, `refresh_token` and `scopes`.
pub open spec fn token_json(t: TokenView) -> Seq<char> {
    "{\"access_token\":"@ + json_string_text(t.access_token) + ",\"expires\":"@
        + json_string_text(rfc3339_text(t.expires)) + ",\"refresh_token\":"@ + (match t.refresh_token {
        Some(r) => json_string_text(r),
        None => "null"@,
    }) + ",\"scopes\":["@ + json_strings(t.scopes, t.scopes.len()) + "]}"@
}

/// Whether a token with expiry `expires` has to be renewed at `now`.
pub open spec fn is_expired(expires: int, now: int) -> bool {
    expires < now
}

/// The expiry of a token granted at `now` for `seconds` seconds.
pub open spec fn granted_expiry(now: int, seconds: nat) -> int {
    now + seconds * NANOS_PER_SECOND
}

/// The token that a grant at `now` yields.
pub open spec fn issued(
    access_token: Seq<char>,
    refresh_token: Seq<char>,
    now: int,
    seconds: nat,
) -> TokenView {
    TokenView {
        access_token,
        refresh_token: Some(refresh_token),
        expires: granted_expiry(now, seconds),
        scopes: seq!["tweet.write"@],
    }
}

/// The scopes a run asks the operator to approve: reading and writing
/// posts, reading users, and access while the operator is away, without
/// which no refresh token is granted.
pub open spec fn requested_scopes() -> Seq<Seq<char>> {
    seq!["tweet.read"@, "tweet.write"@, "users.read"@, "offline.access"@]
}

/// The line that records a granted refresh token.
pub open spec fn refresh_token_line(refresh_token: Seq<char>) -> Seq<char> {
    "RefreshToken: "@ + refresh_token + "\n"@
}

/// `Display` of a `serde_json::Value::String`: the JSON string literal for
/// `s`, with its quotes and escapes.
#[verifier::external_body]
fn json_string(s: &str) -> (text: String)
    ensures
        text@ == json_string_text(s@),
{
    serde_json::Value::String(s.to_string()).to_string()
}

impl View for Oauth2Token {
    type V = TokenView;

    closed spec fn view(&self) -> TokenView {
        TokenView {
            access_token: self.access_token@,
            refresh_token: opt_view(self.refresh_token),
            expires: self.expires@,
            scopes: views(self.scopes@),
        }
    }
}

impl Oauth2Token {
    #[verifier::type_invariant]
    spec fn well_formed(self) -> bool {
        self.expires_text@ == rfc3339_text(self.expires@)
    }

    /// A token from its parts. An expiry before the year 0 has no RFC 3339
    /// form and is refused with a `TimeFormat` error.
    pub fn new(
        access_token: String,
        refresh_token: Option<String>,
        expires: Timestamp,
        scopes: Vec<String>,
    ) -> (r: Result<Oauth2Token, Error>)
        ensures
            r is Ok <==> YEAR_ZERO_UNIX_NANOS <= expires@,
            r matches Ok(token) ==> token@ == (TokenView {
                access_token: access_token@,
                refresh_token: opt_view(refresh_token),
                expires: expires@,
                scopes: views(scopes@),
            }),
            r matches Err(e) ==> e is TimeFormat,
    {
        match expires.rfc3339() {
            Ok(expires_text) => Ok(
                Oauth2Token { access_token, refresh_token, expires, expires_text, scopes },
            ),
            Err(e) => Err(e),
        }
    }

    /// The secret that authorizes requests.
    pub fn access_token(&self) -> (s: &String)
        ensures
            s@ == self@.access_token,
    {
        &self.access_token
    }

    /// The secret that buys a new token, if one was granted.
    pub fn refresh_token(&self) -> (s: Option<&String>)
        ensures
            self@.refresh_token == match s {
                Some(text) => Some(text@),
                None => None,
            },
    {
        self.refresh_token.as_ref()
    }

    /// The instant from which the token is no longer accepted.
    pub fn expires(&self) -> (t: Timestamp)
        ensures
            t@ == self@.expires,
    {
        self.expires
    }

    /// What the token permits.
    pub fn scopes(&self) -> (v: &Vec<String>)
        ensures
            views(v@) == self@.scopes,
    {
        &self.scopes
    }

    /// The text to write to the token file.
    pub fn to_json(&self) -> (text: String)
        ensures
            text@ == token_json(self@),
    {
        proof {
            use_type_invariant(self);
        }
        let mut text = String::from_str("{\"access_token\":");
        text.append(json_string(self.access_token.as_str()).as_str());
        text.append(",\"expires\":");
        text.append(json_string(self.expires_text.as_str()).as_str());
        text.append(",\"refresh_token\":");
        match &self.refresh_token {
            Some(r) => text.append(json_string(r.as_str()).as_str()),
            None => text.append("null"),
        }
        text.append(",\"scopes\":[");
        let ghost head = text@;
        let mut i: usize = 0;
        while i < self.scopes.len()
            invariant
                i <= self.scopes@.len(),
                text@ == head + json_strings(self@.scopes, i as nat),
            decreases self.scopes@.len() - i,
        {
            if i > 0 {
                text.append(",");
            }
            text.append(json_string(self.scopes[i].as_str()).as_str());
            i += 1;
            assert(text@ =~= head + json_strings(self@.scopes, i as nat));
        }
        text.append("]}");
        assert(text@ =~= token_json(self@));
        text
    }
}

/// The scopes to put into the authorization request, in order.
pub fn authorization_scopes() -> (scopes: Vec<String>)
    ensures
        views(scopes@) == requested_scopes(),
{
    let scopes = vec![
        String::from_str("tweet.read"),
        String::from_str("tweet.write"),
        String::from_str("users.read"),
        String::from_str("offline.access"),
    ];
    assert(views(scopes@) =~= requested_scopes());
    scopes
}

/// Turns the provider's answer into the token to keep, shared by both ways
/// of obtaining one.
fn token_from_response(
    response: TokenResponse,
    now: &Timestamp,
    log: &mut Log,
    missing_expiry: &str,
) -> (r: Result<Oauth2Token, Error>)
    ensures
        granted(response, now@, old(log)@, missing_expiry@, r, final(log)@),
{
    let TokenResponse { access_token, refresh_token, expires_in } = response;
    let refresh_token = match refresh_token {
        Some(token) => token,
        None => {
            return Err(
                Error::ErrorString(
                    String::from_str(
                        "For some reason the program can't get the refresh_token. Most likely because offline.access scope wasn't passed",
                    ),
                ),
            );
        },
    };
    push_to_log(
        log,
        String::from_str("RefreshToken: ").concat(refresh_token.as_str()).concat("\n"),
    );
    let seconds = match expires_in {
        Some(seconds) => seconds,
        None => {
            return Err(Error::ErrorString(String::from_str(missing_expiry)));
        },
    };
    let expires = match now.plus_seconds(seconds) {
        Some(expires) => expires,
        None => {
            return Err(Error::Time(String::from_str("resulting value is out of range")));
        },
    };
    let mut scopes: Vec<String> = Vec::new();
    scopes.push(String::from_str("tweet.write"));
    assert(views(scopes@) =~= seq!["tweet.write"@]);
    Oauth2Token::new(access_token, Some(refresh_token), expires, scopes)
}

/// What becomes of the provider's answer `response`, received at `now`, with
/// the log at `log_before`: `r` is the outcome and `log_after` the log.
///
/// An answer without a refresh token is refused before anything is logged.
/// Otherwise the refresh token is logged; then an answer without a lifetime
/// is refused with `missing_expiry`, an expiry that cannot be represented
/// with a `Time` error, one before the year 0 with a `TimeFormat` error, and
/// any other answer yields the token `issued`.
pub open spec fn granted(
    response: TokenResponse,
    now: int,
    log_before: Seq<Seq<char>>,
    missing_expiry: Seq<char>,
    r: Result<Oauth2Token, Error>,
    log_after: Seq<Seq<char>>,
) -> bool {
    match response.refresh_token {
        None => {
            &&& log_after == log_before
            &&& r matches Err(Error::ErrorString(m))
            &&& m@
                == "For some reason the program can't get the refresh_token. Most likely because offline.access scope wasn't passed"@
        },
        Some(refresh_token) => {
            &&& log_after == log_before.push(refresh_token_line(refresh_token@))
            &&& match response.expires_in {
                None => r matches Err(Error::ErrorString(m)) && m@ == missing_expiry,
                Some(seconds) => {
                    let expires = granted_expiry(now, seconds as nat);
                    if !representable(expires) {
                        r matches Err(Error::Time(m)) && m@ == "resulting value is out of range"@
                    } else if expires < YEAR_ZERO_UNIX_NANOS {
                        r matches Err(Error::TimeFormat(_))
                    } else {
                        r matches Ok(token) && token@ == issued(
                            response.access_token@,
                            refresh_token@,
                            now,
                            seconds as nat,
                        )
                    }
                },
            }
        },
    }
}

/// The message for a grant without a lifetime, after an authorization-code
/// exchange.
pub open spec fn missing_expiry_on_acquisition() -> Seq<char> {
    "For some reason the program can't get the expires_in. I don't know oaut2 man"@
}

/// The message for a grant without a lifetime, after a refresh-token
/// exchange.
pub open spec fn missing_expiry_on_refresh() -> Seq<char> {
    "For some reason the program can't get the expires_in. I don't know oauth2 man"@
}

/// Turns the answer to an authorization-code exchange, received at `now`,
/// into the token to keep. The token expires `expires_in` seconds after
/// `now` and carries the single scope `tweet.write`.
pub fn get_token(response: TokenResponse, now: &Timestamp, log: &mut Log) -> (r: Result<
    Oauth2Token,
    Error,
>)
    ensures
        granted(response, now@, old(log)@, missing_expiry_on_acquisition(), r, final(log)@),
{
    token_from_response(
        response,
        now,
        log,
        "For some reason the program can't get the expires_in. I don't know oaut2 man",
    )
}

/// Turns the answer to a refresh-token exchange, received at `now`, into the
/// token to keep, as `get_token` does for a first grant.
pub fn get_token_without_refresh_flow(
    response: TokenResponse,
    now: &Timestamp,
    log: &mut Log,
) -> (r: Result<Oauth2Token, Error>)
    ensures
        granted(response, now@, old(log)@, missing_expiry_on_refresh(), r, final(log)@),
{
    token_from_response(
        response,
        now,
        log,
        "For some reason the program can't get the expires_in. I don't know oauth2 man",
    )
}

/// Decides where this run's token comes from. A missing token file means a
/// first run: that is logged and a token has to be acquired. A file that
/// cannot be read or does not hold a token ends the run.
pub fn get_token_from_file(file: TokenFile, log: &mut Log) -> (r: Result<TokenSource, Error>)
    ensures
        match file {
            TokenFile::Missing => {
                &&& r matches Ok(TokenSource::Acquire)
                &&& final(log)@ == old(log)@.push("Token file not found. Getting new token\n"@)
            },
            TokenFile::Unreadable(why) => {
                &&& r == Err::<TokenSource, Error>(Error::Io(why))
                &&& final(log)@ == old(log)@
            },
            TokenFile::Malformed(why) => {
                &&& r == Err::<TokenSource, Error>(Error::SerdeJson(why))
                &&& final(log)@ == old(log)@
            },
            TokenFile::Present(token) => {
                &&& r == Ok::<TokenSource, Error>(TokenSource::Stored(token))
                &&& final(log)@ == old(log)@
            },
        },
{
    match file {
        TokenFile::Missing => {
            push_to_log(log, String::from_str("Token file not found. Getting new token\n"));
            Ok(TokenSource::Acquire)
        },
        TokenFile::Unreadable(why) => Err(Error::Io(why)),
        TokenFile::Malformed(why) => Err(Error::SerdeJson(why)),
        TokenFile::Present(token) => Ok(TokenSource::Stored(token)),
    }
}

/// Checks the token against the clock. A token whose expiry lies before
/// `now` has to be renewed with the refresh token it holds; any other token
/// is handed back as it is. Either way the finding is logged.
pub fn refresh_if_expire(oauth2token: Oauth2Token, now: &Timestamp, log: &mut Log) -> (r:
    TokenCheck)
    ensures
        is_expired(oauth2token@.expires, now@) ==> {
            &&& r matches TokenCheck::Expired { refresh_token }
            &&& opt_view(refresh_token) == oauth2token@.refresh_token
            &&& final(log)@ == old(log)@.push("Token expired. Refreshing token\n"@)
        },
        !is_expired(oauth2token@.expires, now@) ==> {
            &&& r == TokenCheck::Valid(oauth2token)
            &&& final(log)@ == old(log)@.push("Token not expired\n"@)
        },
{
    if oauth2token.expires.is_before(now) {
        push_to_log(log, String::from_str("Token expired. Refreshing token\n"));
        TokenCheck::Expired { refresh_token: oauth2token.refresh_token }
    } else {
        push_to_log(log, String::from_str("Token not expired\n"));
        TokenCheck::Valid(oauth2token)
    }
}

/// A token that is renewed after it expired is valid again: if the check at
/// `check_time` found the old token expired, and the provider then granted a
/// lifetime of at least one second at `grant_time`, not earlier than the
/// check, the new token expires after the check and is not found expired at
/// the time of the grant.
pub proof fn lemma_renewed_token_is_valid(
    old_expires: int,
    check_time: int,
    access_token: Seq<char>,
    refresh_token: Seq<char>,
    grant_time: int,
    seconds: nat,
)
    requires
        is_expired(old_expires, check_time),
        check_time <= grant_time,
        0 < seconds,
    ensures
        issued(access_token, refresh_token, grant_time, seconds).expires > check_time,
        !is_expired(issued(access_token, refresh_token, grant_time, seconds).expires, grant_time),
{
}

} // verus!
