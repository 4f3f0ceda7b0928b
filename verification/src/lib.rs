//! Typed client binding for a brokerage's REST API.
//!
//! The library models the request-building and response-checking rules of
//! the API: how an access token is derived from a token-exchange payload,
//! how each builder of optional parameters maps to query pairs, and how a
//! status code and response body resolve to a typed result or a typed
//! error. The HTTP transport itself stays outside the library: the
//! library hands a caller the exact URL, form fields, header and query
//! pairs to send, and takes back the status and body that came in.

pub mod json;
pub mod params;
pub mod responses;

use vstd::prelude::*;
use vstd::string::*;
use crate::json::{array_of, field_of, json_array, json_field, json_of_text, json_str, str_of};
use crate::params::pairs_view;
use crate::responses::{
    account_shape, accounts_shape, decode_account, decode_accounts, decode_movers,
    decode_price_history, decode_token_response, field_array, field_bool, field_i64, field_str,
    get_i64_field, get_str_field, mover_matches, movers_shape, price_history_shape, sa_matches,
    spec_candle, token_response_shape, AccessTokenResponse, Account, GetPriceHistoryResponse,
    Mover,
};
use serde_json::Value;

verus! {

/// Base path of the remote API.
pub const TDA_API_BASE: &'static str = "https://api.tdameritrade.com/v1";

/// Everything a call of the client can fail with.
#[derive(Debug)]
pub enum ClientError {
    /// The remote answered with a status other than 200; carries the
    /// status and the raw body, verbatim, for diagnostics.
    NotHttpOk(u16, String),
    /// The remote answered 200 but the body did not match the expected
    /// schema; carries the parse failure's text.
    ParseResponse(String),
    /// No usable body was obtained: the call itself, or the read of the
    /// response's body, failed.
    ReadResponse(String),
    /// An authenticated method was asked for before an access token was
    /// set on the client.
    MissingToken,
}

/// A bearer token with its absolute expiry, in milliseconds since the
/// epoch, and the scopes granted with it.
#[derive(Clone, Debug)]
pub struct AccessToken {
    pub expires_at: i64,
    pub scope: Vec<String>,
    pub token: String,
}

/// The scope texts a space-delimited scope string denotes: the text is
/// cut at every single space, nothing is trimmed, and an empty text
/// denotes one empty entry.
pub open spec fn split_spaces(s: Seq<char>) -> Seq<Seq<char>>
    decreases s.len(),
{
    if s.len() == 0 {
        seq![Seq::<char>::empty()]
    } else {
        let rest = split_spaces(s.drop_last());
        if s.last() == ' ' {
            rest.push(Seq::<char>::empty())
        } else {
            rest.update(rest.len() - 1, rest.last().push(s.last()))
        }
    }
}

/// Cut a scope string at every single space.
pub fn split_scopes(s: &str) -> (r: Vec<String>)
    ensures
        r.deep_view() == split_spaces(s@),
{
    let n = s.unicode_len();
    let mut out: Vec<String> = Vec::new();
    let mut cur = String::new();
    let mut i: usize = 0;
    while i < n
        invariant
            i <= n,
            n == s@.len(),
            out.deep_view().push(cur@) == split_spaces(s@.subrange(0, i as int)),
        decreases n - i,
    {
        let c = s.get_char(i);
        proof {
            assert(s@.subrange(0, i + 1 as int).drop_last() =~= s@.subrange(0, i as int));
            assert(s@.subrange(0, i + 1 as int).last() == s@[i as int]);
        }
        if c == ' ' {
            out.push(cur);
            cur = String::new();
            proof {
                assert(out.deep_view() =~~= split_spaces(s@.subrange(0, i as int)));
                assert(out.deep_view().push(cur@) =~~= split_spaces(s@.subrange(0, i + 1 as int)));
            }
        } else {
            let piece = s.substring_char(i, i + 1);
            cur.append(piece);
            proof {
                let pre = split_spaces(s@.subrange(0, i as int));
                assert(cur@ =~= pre.last().push(s@[i as int]));
                assert(out.deep_view().push(cur@) =~= pre.update(pre.len() - 1, pre.last().push(
                    s@[i as int],
                )));
                assert(out.deep_view().push(cur@) =~~= split_spaces(s@.subrange(0, i + 1 as int)));
            }
        }
        i = i + 1;
    }
    out.push(cur);
    proof {
        assert(s@.subrange(0, n as int) =~= s@);
        assert(out.deep_view() =~~= split_spaces(s@));
    }
    out
}

/// Whether a token whose expiry is the first argument counts as expired
/// when the clock reads the second: expired from the moment the expiry
/// is reached, not one moment before.
pub open spec fn is_expired(expires_at: i64, now_ms: i64) -> bool {
    now_ms >= expires_at
}

impl AccessToken {
    /// Derive a token from a token-exchange payload as of a given clock
    /// reading: the expiry is that reading plus the declared lifetime in
    /// seconds, converted to milliseconds, and the scope set is the
    /// payload's scope string cut at single spaces.
    pub fn from_response_at(response: &AccessTokenResponse, now_ms: i64) -> (r: AccessToken)
        requires
            i64::MIN <= response.expires_in * 1000 <= i64::MAX,
            i64::MIN <= now_ms + response.expires_in * 1000 <= i64::MAX,
        ensures
            r.expires_at == now_ms + response.expires_in * 1000,
            r.token@ == response.access_token@,
            r.scope.deep_view() == split_spaces(response.scope@),
    {
        AccessToken {
            expires_at: now_ms + response.expires_in * 1000,
            scope: split_scopes(response.scope.as_str()),
            token: response.access_token.clone(),
        }
    }

    /// Derive a token from a token-exchange payload as of the wall clock
    /// now. Nothing can be promised of the clock itself, so the exact
    /// expiry is stated only by `from_response_at`, which this calls;
    /// `None` comes back just where the expiry would leave the integer
    /// range.
    pub fn from_response(response: &AccessTokenResponse) -> (r: Option<AccessToken>)
        ensures
            (r matches Some(t) ==> {
                &&& t.token@ == response.access_token@
                &&& t.scope.deep_view() == split_spaces(response.scope@)
            }),
    {
        let now = now_millis();
        match response.expires_in.checked_mul(1000) {
            Option::Some(scaled) => match now.checked_add(scaled) {
                Option::Some(_) => Option::Some(AccessToken::from_response_at(response, now)),
                Option::None => Option::None,
            },
            Option::None => Option::None,
        }
    }

    /// Whether the token's expiry has been reached at a given clock
    /// reading.
    pub fn has_expired_at(&self, now_ms: i64) -> (r: bool)
        ensures
            r == is_expired(self.expires_at, now_ms),
    {
        now_ms >= self.expires_at
    }

    /// Whether the token's expiry has been reached as of the wall clock
    /// now. The clock's reading cannot be promised; the check's sense is
    /// stated by `has_expired_at`, which this calls on the reading.
    pub fn has_expired(&self) -> bool {
        self.has_expired_at(now_millis())
    }
}

/// The expiry check's sense, both ways: a token derived from a payload
/// with a positive lifetime is not yet expired at the clock reading it
/// was built from, and any token is expired from every reading that is
/// at or past its expiry.
pub proof fn lemma_expiry_check_sense(response: AccessTokenResponse, now_ms: i64, later: i64)
    requires
        response.expires_in > 0,
        now_ms + response.expires_in * 1000 <= i64::MAX,
    ensures
        !is_expired((now_ms + response.expires_in * 1000) as i64, now_ms),
        later >= now_ms + response.expires_in * 1000 ==> is_expired(
            (now_ms + response.expires_in * 1000) as i64,
            later,
        ),
{
}

/// Relies on `chrono::Utc::now` and `DateTime::timestamp_millis`: the
/// wall clock now, as milliseconds since the epoch. Nothing is promised
/// of the reading; whatever depends on it takes it as an argument.
#[verifier::external_body]
fn now_millis() -> i64 {
    chrono::Utc::now().timestamp_millis()
}

/// Client for the remote API: the credentials it was built with and the
/// one mutable slot holding the current access token. One owner per
/// client; sharing one across concurrent callers needs outside
/// synchronization, since the slot is a plain field.
#[derive(Debug)]
pub struct Client {
    pub access_token: Option<AccessToken>,
    client_id: String,
    refresh_token: String,
}

/// The form fields of a token-refresh request, in wire order.
pub open spec fn token_form(c: Client) -> Seq<(Seq<char>, Seq<char>)> {
    seq![
        ("grant_type"@, "refresh_token"@),
        ("refresh_token"@, c.spec_refresh_token()),
        ("client_id"@, c.spec_client_id()),
    ]
}

impl Client {
    /// The token slot's current content.
    pub closed spec fn spec_access_token(&self) -> Option<AccessToken> {
        self.access_token
    }

    /// The client identifier this client was built with.
    pub closed spec fn spec_client_id(&self) -> Seq<char> {
        self.client_id@
    }

    /// The refresh token this client was built with.
    pub closed spec fn spec_refresh_token(&self) -> Seq<char> {
        self.refresh_token@
    }

    /// Build a client from a client identifier and a refresh token, with
    /// or without a token already in hand.
    pub fn new(client_id: &str, refresh_token: &str, access_token: Option<AccessToken>) -> (r:
        Self)
        ensures
            r.spec_client_id() == client_id@,
            r.spec_refresh_token() == refresh_token@,
            r.spec_access_token() == access_token,
    {
        Client {
            access_token,
            client_id: String::from_str(client_id),
            refresh_token: String::from_str(refresh_token),
        }
    }

    /// Put a token into the client's slot, replacing it whole.
    pub fn set_access_token(&mut self, access_token: Option<AccessToken>)
        ensures
            final(self).spec_access_token() == access_token,
            final(self).spec_client_id() == old(self).spec_client_id(),
            final(self).spec_refresh_token() == old(self).spec_refresh_token(),
    {
        self.access_token = access_token;
    }

    /// The form fields a token refresh posts: the grant type, the refresh
    /// token and the client identifier, in wire order.
    pub fn token_request_form(&self) -> (r: Vec<(String, String)>)
        ensures
            pairs_view(r@) == token_form(*self),
    {
        let mut out: Vec<(String, String)> = Vec::new();
        out.push((String::from_str("grant_type"), String::from_str("refresh_token")));
        out.push((String::from_str("refresh_token"), self.refresh_token.clone()));
        out.push((String::from_str("client_id"), self.client_id.clone()));
        proof {
            assert(pairs_view(out@) =~= token_form(*self));
        }
        out
    }

    /// The authorization header an authenticated request carries, or the
    /// missing-credential error exactly where no token is set.
    pub fn bearer_header(&self) -> (r: Result<String, ClientError>)
        ensures
            r is Err <==> self.spec_access_token() is None,
            (r matches Err(e) ==> e == ClientError::MissingToken),
            (r matches Ok(h) ==> h@ == "Bearer "@ + self.spec_access_token()->0.token@),
    {
        match &self.access_token {
            Option::None => Result::Err(ClientError::MissingToken),
            Option::Some(t) => Result::Ok(String::from_str("Bearer ").concat(t.token.as_str())),
        }
    }
}

/// The URL a token refresh posts to.
pub fn token_url() -> (r: String)
    ensures
        r@ == TDA_API_BASE@ + "/oauth2/token"@,
{
    String::from_str(TDA_API_BASE).concat("/oauth2/token")
}

/// The URL of one account's record.
pub fn account_url(account_id: &str) -> (r: String)
    ensures
        r@ == TDA_API_BASE@ + "/accounts/"@ + account_id@,
{
    String::from_str(TDA_API_BASE).concat("/accounts/").concat(account_id)
}

/// The URL of the accounts listing.
pub fn accounts_url() -> (r: String)
    ensures
        r@ == TDA_API_BASE@ + "/accounts"@,
{
    String::from_str(TDA_API_BASE).concat("/accounts")
}

/// The URL of one market index's movers.
pub fn movers_url(index: &str) -> (r: String)
    ensures
        r@ == TDA_API_BASE@ + "/marketdata/"@ + index@ + "/movers"@,
{
    String::from_str(TDA_API_BASE).concat("/marketdata/").concat(index).concat("/movers")
}

/// The URL of one symbol's price history.
pub fn price_history_url(symbol: &str) -> (r: String)
    ensures
        r@ == TDA_API_BASE@ + "/marketdata/"@ + symbol@ + "/pricehistory"@,
{
    String::from_str(TDA_API_BASE).concat("/marketdata/").concat(symbol).concat("/pricehistory")
}

/// Resolve a token-exchange response: any status but 200 is the
/// unexpected-status error with that status and the body verbatim; a 200
/// body that is not JSON of the token-exchange shape is the malformed-
/// response error; a 200 body of the shape fills the schema exactly.
pub fn handle_token_response(status: u16, body: String) -> (r: Result<
    AccessTokenResponse,
    ClientError,
>)
    ensures
        status != 200 ==> r == Err::<AccessTokenResponse, ClientError>(
            ClientError::NotHttpOk(status, body),
        ),
        status == 200 ==> match json_of_text(body@) {
            Option::None => r matches Err(e) && e is ParseResponse,
            Option::Some(v) => {
                &&& (r is Ok <==> token_response_shape(v))
                &&& (r matches Ok(t) ==> {
                    &&& Some(t.access_token@) == field_str(v, "access_token"@)
                    &&& Some(t.scope@) == field_str(v, "scope"@)
                    &&& Some(t.expires_in) == field_i64(v, "expires_in"@)
                })
                &&& (!token_response_shape(v) ==> (r matches Err(e) && e is ParseResponse))
            },
        },
{
    if status != 200 {
        return Result::Err(ClientError::NotHttpOk(status, body));
    }
    let parsed = match crate::json::parse_json(body.as_str()) {
        Result::Ok(v) => v,
        Result::Err(e) => {
            return Result::Err(ClientError::ParseResponse(crate::json::error_text(&e)));
        },
    };
    match decode_token_response(&parsed) {
        Option::Some(t) => Result::Ok(t),
        Option::None => Result::Err(
            ClientError::ParseResponse(
                String::from_str("the body does not have the token-exchange shape"),
            ),
        ),
    }
}

/// Resolve a single-account response, with the same status and parse
/// rules as every endpoint: the body must be JSON with the account
/// wrapper field, and the entry under it is read as a securities
/// account, unknown shapes kept whole.
pub fn handle_account_response(status: u16, body: String) -> (r: Result<Account, ClientError>)
    ensures
        status != 200 ==> r == Err::<Account, ClientError>(ClientError::NotHttpOk(status, body)),
        status == 200 ==> match json_of_text(body@) {
            Option::None => r matches Err(e) && e is ParseResponse,
            Option::Some(v) => {
                &&& (r is Ok <==> account_shape(v))
                &&& (r matches Ok(a) ==> sa_matches(
                    a.securities_account,
                    field_of(v, "securitiesAccount"@)->0,
                ))
                &&& (!account_shape(v) ==> (r matches Err(e) && e is ParseResponse))
            },
        },
{
    if status != 200 {
        return Result::Err(ClientError::NotHttpOk(status, body));
    }
    let parsed = match crate::json::parse_json(body.as_str()) {
        Result::Ok(v) => v,
        Result::Err(e) => {
            return Result::Err(ClientError::ParseResponse(crate::json::error_text(&e)));
        },
    };
    match decode_account(&parsed) {
        Option::Some(a) => Result::Ok(a),
        Option::None => Result::Err(
            ClientError::ParseResponse(
                String::from_str("the body does not have the account shape"),
            ),
        ),
    }
}

/// Resolve an accounts-listing response: a 200 body must be a JSON array
/// of account-shaped entries.
pub fn handle_accounts_response(status: u16, body: String) -> (r: Result<
    Vec<Account>,
    ClientError,
>)
    ensures
        status != 200 ==> r == Err::<Vec<Account>, ClientError>(
            ClientError::NotHttpOk(status, body),
        ),
        status == 200 ==> match json_of_text(body@) {
            Option::None => r matches Err(e) && e is ParseResponse,
            Option::Some(v) => {
                &&& (r is Ok <==> accounts_shape(v))
                &&& (r matches Ok(accts) ==> {
                    &&& accts@.len() == array_of(v)->0.len()
                    &&& forall|i: int|
                        0 <= i < accts@.len() ==> sa_matches(
                            (#[trigger] accts@[i]).securities_account,
                            field_of(array_of(v)->0[i], "securitiesAccount"@)->0,
                        )
                })
                &&& (!accounts_shape(v) ==> (r matches Err(e) && e is ParseResponse))
            },
        },
{
    if status != 200 {
        return Result::Err(ClientError::NotHttpOk(status, body));
    }
    let parsed = match crate::json::parse_json(body.as_str()) {
        Result::Ok(v) => v,
        Result::Err(e) => {
            return Result::Err(ClientError::ParseResponse(crate::json::error_text(&e)));
        },
    };
    match decode_accounts(&parsed) {
        Option::Some(accts) => Result::Ok(accts),
        Option::None => Result::Err(
            ClientError::ParseResponse(
                String::from_str("the body is not an array of account-shaped entries"),
            ),
        ),
    }
}

/// Resolve a movers response: a 200 body must be a JSON array of
/// mover-shaped entries, and each fills one mover exactly.
pub fn handle_movers_response(status: u16, body: String) -> (r: Result<Vec<Mover>, ClientError>)
    ensures
        status != 200 ==> r == Err::<Vec<Mover>, ClientError>(ClientError::NotHttpOk(status, body)),
        status == 200 ==> match json_of_text(body@) {
            Option::None => r matches Err(e) && e is ParseResponse,
            Option::Some(v) => {
                &&& (r is Ok <==> movers_shape(v))
                &&& (r matches Ok(ms) ==> {
                    &&& ms@.len() == array_of(v)->0.len()
                    &&& forall|i: int|
                        0 <= i < ms@.len() ==> mover_matches(#[trigger] ms@[i], array_of(v)->0[i])
                })
                &&& (!movers_shape(v) ==> (r matches Err(e) && e is ParseResponse))
            },
        },
{
    if status != 200 {
        return Result::Err(ClientError::NotHttpOk(status, body));
    }
    let parsed = match crate::json::parse_json(body.as_str()) {
        Result::Ok(v) => v,
        Result::Err(e) => {
            return Result::Err(ClientError::ParseResponse(crate::json::error_text(&e)));
        },
    };
    match decode_movers(&parsed) {
        Option::Some(ms) => Result::Ok(ms),
        Option::None => Result::Err(
            ClientError::ParseResponse(
                String::from_str("the body is not an array of mover-shaped entries"),
            ),
        ),
    }
}

/// Resolve a price-history response: a 200 body must be JSON of the
/// price-history shape, every candle included, and fills the schema
/// exactly.
pub fn handle_price_history_response(status: u16, body: String) -> (r: Result<
    GetPriceHistoryResponse,
    ClientError,
>)
    ensures
        status != 200 ==> r == Err::<GetPriceHistoryResponse, ClientError>(
            ClientError::NotHttpOk(status, body),
        ),
        status == 200 ==> match json_of_text(body@) {
            Option::None => r matches Err(e) && e is ParseResponse,
            Option::Some(v) => {
                &&& (r is Ok <==> price_history_shape(v))
                &&& (r matches Ok(p) ==> {
                    &&& Some(p.candles@) == match field_array(v, "candles"@) {
                        Option::None => Option::None,
                        Option::Some(a) => Option::Some(a.map_values(|x: Value| spec_candle(x))),
                    }
                    &&& Some(p.empty) == field_bool(v, "empty"@)
                    &&& Some(p.symbol@) == field_str(v, "symbol"@)
                })
                &&& (!price_history_shape(v) ==> (r matches Err(e) && e is ParseResponse))
            },
        },
{
    if status != 200 {
        return Result::Err(ClientError::NotHttpOk(status, body));
    }
    let parsed = match crate::json::parse_json(body.as_str()) {
        Result::Ok(v) => v,
        Result::Err(e) => {
            return Result::Err(ClientError::ParseResponse(crate::json::error_text(&e)));
        },
    };
    match decode_price_history(&parsed) {
        Option::Some(p) => Result::Ok(p),
        Option::None => Result::Err(
            ClientError::ParseResponse(
                String::from_str("the body does not have the price-history shape"),
            ),
        ),
    }
}

/// Whether a JSON value has the persisted-token shape: an integer
/// `expires_at`, an array `scope` of strings, and a string `token`.
pub open spec fn persisted_shape(v: Value) -> bool {
    &&& field_i64(v, "expires_at"@) is Some
    &&& field_array(v, "scope"@) is Some
    &&& forall|i: int|
        0 <= i < field_array(v, "scope"@)->0.len() ==> str_of(
            #[trigger] field_array(v, "scope"@)->0[i],
        ) is Some
    &&& field_str(v, "token"@) is Some
}

/// Rebuild a token from its persisted shape, exactly where a JSON value
/// has it.
pub fn decode_persisted_token(v: &Value) -> (r: Option<AccessToken>)
    ensures
        r is Some <==> persisted_shape(*v),
        (r matches Some(t) ==> {
            &&& Some(t.expires_at) == field_i64(*v, "expires_at"@)
            &&& Some(t.token@) == field_str(*v, "token"@)
            &&& t.scope.deep_view().len() == field_array(*v, "scope"@)->0.len()
            &&& forall|i: int|
                0 <= i < t.scope.deep_view().len() ==> Some(#[trigger] t.scope.deep_view()[i])
                    == str_of(field_array(*v, "scope"@)->0[i])
        }),
{
    let expires_at = match get_i64_field(v, "expires_at") {
        Option::Some(n) => n,
        Option::None => {
            return Option::None;
        },
    };
    let arr = match json_field(v, "scope") {
        Option::Some(f) => match json_array(f) {
            Option::Some(a) => a,
            Option::None => {
                return Option::None;
            },
        },
        Option::None => {
            return Option::None;
        },
    };
    let mut scope: Vec<String> = Vec::new();
    let n = arr.len();
    let mut i: usize = 0;
    while i < n
        invariant
            i <= n,
            n == arr@.len(),
            field_array(*v, "scope"@) == Some(arr@),
            scope@.len() == i,
            forall|j: int|
                0 <= j < i ==> str_of(#[trigger] arr@[j]) is Some && scope@[j]@ == str_of(
                    arr@[j],
                )->0,
        decreases n - i,
    {
        match json_str(&arr[i]) {
            Option::Some(s) => {
                scope.push(s);
            },
            Option::None => {
                proof {
                    assert(str_of(field_array(*v, "scope"@)->0[i as int]) is None);
                }
                return Option::None;
            },
        }
        i = i + 1;
    }
    let token = match get_str_field(v, "token") {
        Option::Some(s) => s,
        Option::None => {
            return Option::None;
        },
    };
    let r = AccessToken { expires_at, scope, token };
    proof {
        assert(forall|i: int|
            0 <= i < r.scope.deep_view().len() ==> #[trigger] r.scope.deep_view()[i] == r.scope@[
                i
            ]@);
    }
    Option::Some(r)
}

/// Round trip through the persisted shape: writing a token out and
/// reading it back yields the same expiry, the same token text and the
/// same scope list.
pub fn persisted_round_trip(t: &AccessToken) -> (r: AccessToken)
    ensures
        r.expires_at == t.expires_at,
        r.token@ == t.token@,
        r.scope.deep_view() == t.scope.deep_view(),
{
    let v = crate::json::persisted_value(t.expires_at, &t.scope, t.token.as_str());
    proof {
        assert(persisted_shape(v));
    }
    let back = decode_persisted_token(&v);
    let r = back.unwrap();
    proof {
        assert(r.scope.deep_view() =~~= t.scope.deep_view());
    }
    r
}

} // verus!
