//! Response schemas and their decoders.
//!
//! Each schema mirrors the wire JSON of one endpoint. A decoder takes a
//! parsed JSON value and either fills the schema, or reports that the
//! value does not have the schema's shape; its contract says exactly
//! which values it accepts and what each field of the result is. Price
//! fields are IEEE-754 doubles on the wire; the library carries each as
//! its 64-bit pattern, one for one, so a caller can rebuild the double
//! without the library computing on it.

use vstd::prelude::*;
use crate::json::{
    array_of, bool_of, double_bits_of, field_of, i64_of, json_array, json_bool, json_clone,
    json_double_bits, json_field, json_i64, json_str, json_u64, str_of, u64_of,
};
use serde_json::Value;

verus! {

/// The text of the string field of an object under a key, if both exist.
pub open spec fn field_str(v: Value, key: Seq<char>) -> Option<Seq<char>> {
    match field_of(v, key) {
        Option::None => Option::None,
        Option::Some(f) => str_of(f),
    }
}

/// The signed integer field of an object under a key, if both exist.
pub open spec fn field_i64(v: Value, key: Seq<char>) -> Option<i64> {
    match field_of(v, key) {
        Option::None => Option::None,
        Option::Some(f) => i64_of(f),
    }
}

/// The unsigned integer field of an object under a key, if both exist.
pub open spec fn field_u64(v: Value, key: Seq<char>) -> Option<u64> {
    match field_of(v, key) {
        Option::None => Option::None,
        Option::Some(f) => u64_of(f),
    }
}

/// The boolean field of an object under a key, if both exist.
pub open spec fn field_bool(v: Value, key: Seq<char>) -> Option<bool> {
    match field_of(v, key) {
        Option::None => Option::None,
        Option::Some(f) => bool_of(f),
    }
}

/// The double field of an object under a key, as bits, if both exist.
pub open spec fn field_bits(v: Value, key: Seq<char>) -> Option<u64> {
    match field_of(v, key) {
        Option::None => Option::None,
        Option::Some(f) => double_bits_of(f),
    }
}

/// The array field of an object under a key, if both exist.
pub open spec fn field_array(v: Value, key: Seq<char>) -> Option<Seq<Value>> {
    match field_of(v, key) {
        Option::None => Option::None,
        Option::Some(f) => array_of(f),
    }
}

/// The string field of `v` under `key`, owned.
pub(crate) fn get_str_field(v: &Value, key: &str) -> (r: Option<String>)
    ensures
        r is Some <==> field_str(*v, key@) is Some,
        (r matches Some(s) ==> field_str(*v, key@) == Some(s@)),
{
    match json_field(v, key) {
        Option::None => Option::None,
        Option::Some(f) => json_str(f),
    }
}

/// The signed integer field of `v` under `key`.
pub(crate) fn get_i64_field(v: &Value, key: &str) -> (r: Option<i64>)
    ensures
        r == field_i64(*v, key@),
{
    match json_field(v, key) {
        Option::None => Option::None,
        Option::Some(f) => json_i64(f),
    }
}

/// The unsigned integer field of `v` under `key`.
pub(crate) fn get_u64_field(v: &Value, key: &str) -> (r: Option<u64>)
    ensures
        r == field_u64(*v, key@),
{
    match json_field(v, key) {
        Option::None => Option::None,
        Option::Some(f) => json_u64(f),
    }
}

/// The boolean field of `v` under `key`.
pub(crate) fn get_bool_field(v: &Value, key: &str) -> (r: Option<bool>)
    ensures
        r == field_bool(*v, key@),
{
    match json_field(v, key) {
        Option::None => Option::None,
        Option::Some(f) => json_bool(f),
    }
}

/// The double field of `v` under `key`, as its bit pattern.
pub(crate) fn get_bits_field(v: &Value, key: &str) -> (r: Option<u64>)
    ensures
        r == field_bits(*v, key@),
{
    match json_field(v, key) {
        Option::None => Option::None,
        Option::Some(f) => json_double_bits(f),
    }
}

/// The body of a successful token exchange: the fresh token text, the
/// space-delimited scope text, and the token's lifetime in seconds.
#[derive(Debug)]
pub struct AccessTokenResponse {
    pub access_token: String,
    pub scope: String,
    pub expires_in: i64,
}

/// Whether a JSON value has the token-exchange shape: a string
/// `access_token`, a string `scope` and an integer `expires_in`.
pub open spec fn token_response_shape(v: Value) -> bool {
    &&& field_str(v, "access_token"@) is Some
    &&& field_str(v, "scope"@) is Some
    &&& field_i64(v, "expires_in"@) is Some
}

/// Fill the token-exchange schema from a parsed body, exactly where the
/// body has its shape.
pub fn decode_token_response(v: &Value) -> (r: Option<AccessTokenResponse>)
    ensures
        r is Some <==> token_response_shape(*v),
        (r matches Some(t) ==> {
            &&& Some(t.access_token@) == field_str(*v, "access_token"@)
            &&& Some(t.scope@) == field_str(*v, "scope"@)
            &&& Some(t.expires_in) == field_i64(*v, "expires_in"@)
        }),
{
    let access_token = match get_str_field(v, "access_token") {
        Option::Some(s) => s,
        Option::None => {
            return Option::None;
        },
    };
    let scope = match get_str_field(v, "scope") {
        Option::Some(s) => s,
        Option::None => {
            return Option::None;
        },
    };
    let expires_in = match get_i64_field(v, "expires_in") {
        Option::Some(n) => n,
        Option::None => {
            return Option::None;
        },
    };
    Option::Some(AccessTokenResponse { access_token, scope, expires_in })
}

/// One price candle: open, high, low and close as double bit patterns,
/// the candle's start as milliseconds since the epoch, and the volume.
#[derive(Clone, Copy, Debug, PartialEq, Eq, Structural)]
pub struct Candle {
    pub close_bits: u64,
    pub datetime: u64,
    pub high_bits: u64,
    pub low_bits: u64,
    pub open_bits: u64,
    pub volume: i64,
}

/// Whether a JSON value has the candle shape: four doubles, an unsigned
/// timestamp and a signed volume, all required.
pub open spec fn candle_shape(v: Value) -> bool {
    &&& field_bits(v, "close"@) is Some
    &&& field_u64(v, "datetime"@) is Some
    &&& field_bits(v, "high"@) is Some
    &&& field_bits(v, "low"@) is Some
    &&& field_bits(v, "open"@) is Some
    &&& field_i64(v, "volume"@) is Some
}

/// The candle a JSON value of candle shape denotes.
pub open spec fn spec_candle(v: Value) -> Candle {
    Candle {
        close_bits: field_bits(v, "close"@)->0,
        datetime: field_u64(v, "datetime"@)->0,
        high_bits: field_bits(v, "high"@)->0,
        low_bits: field_bits(v, "low"@)->0,
        open_bits: field_bits(v, "open"@)->0,
        volume: field_i64(v, "volume"@)->0,
    }
}

/// Fill one candle from a parsed value, exactly where it has the shape.
pub fn decode_candle(v: &Value) -> (r: Option<Candle>)
    ensures
        r is Some <==> candle_shape(*v),
        (r matches Some(c) ==> c == spec_candle(*v)),
{
    let close_bits = match get_bits_field(v, "close") {
        Option::Some(b) => b,
        Option::None => {
            return Option::None;
        },
    };
    let datetime = match get_u64_field(v, "datetime") {
        Option::Some(b) => b,
        Option::None => {
            return Option::None;
        },
    };
    let high_bits = match get_bits_field(v, "high") {
        Option::Some(b) => b,
        Option::None => {
            return Option::None;
        },
    };
    let low_bits = match get_bits_field(v, "low") {
        Option::Some(b) => b,
        Option::None => {
            return Option::None;
        },
    };
    let open_bits = match get_bits_field(v, "open") {
        Option::Some(b) => b,
        Option::None => {
            return Option::None;
        },
    };
    let volume = match get_i64_field(v, "volume") {
        Option::Some(b) => b,
        Option::None => {
            return Option::None;
        },
    };
    Option::Some(Candle { close_bits, datetime, high_bits, low_bits, open_bits, volume })
}

/// Whether every element of an array has the candle shape.
pub open spec fn candles_shape(a: Seq<Value>) -> bool {
    forall|i: int| 0 <= i < a.len() ==> candle_shape(#[trigger] a[i])
}

/// Fill a whole candle list, exactly where every element has the shape.
pub fn decode_candles(arr: &Vec<Value>) -> (r: Option<Vec<Candle>>)
    ensures
        r is Some <==> candles_shape(arr@),
        (r matches Some(cs) ==> cs@ == arr@.map_values(|x: Value| spec_candle(x))),
{
    let mut out: Vec<Candle> = Vec::new();
    let n = arr.len();
    let mut i: usize = 0;
    while i < n
        invariant
            i <= n,
            n == arr@.len(),
            out@.len() == i,
            forall|j: int|
                0 <= j < i ==> candle_shape(#[trigger] arr@[j]) && out@[j] == spec_candle(arr@[j]),
        decreases n - i,
    {
        match decode_candle(&arr[i]) {
            Option::Some(c) => {
                out.push(c);
            },
            Option::None => {
                proof {
                    assert(!candle_shape(arr@[i as int]));
                }
                return Option::None;
            },
        }
        i = i + 1;
    }
    proof {
        assert(out@ =~= arr@.map_values(|x: Value| spec_candle(x)));
    }
    Option::Some(out)
}

/// The body of a price-history response: the candle list, whether the
/// server found no data, and the symbol asked about.
#[derive(Debug)]
pub struct GetPriceHistoryResponse {
    pub candles: Vec<Candle>,
    pub empty: bool,
    pub symbol: String,
}

/// Whether a JSON value has the price-history shape: a `candles` array
/// whose every element is a candle, a boolean `empty` and a string
/// `symbol`, all required.
pub open spec fn price_history_shape(v: Value) -> bool {
    &&& field_array(v, "candles"@) is Some
    &&& candles_shape(field_array(v, "candles"@)->0)
    &&& field_bool(v, "empty"@) is Some
    &&& field_str(v, "symbol"@) is Some
}

/// Fill the price-history schema from a parsed body, exactly where the
/// body has its shape.
pub fn decode_price_history(v: &Value) -> (r: Option<GetPriceHistoryResponse>)
    ensures
        r is Some <==> price_history_shape(*v),
        (r matches Some(p) ==> {
            &&& Some(p.candles@) == match field_array(*v, "candles"@) {
                Option::None => Option::None,
                Option::Some(a) => Option::Some(a.map_values(|x: Value| spec_candle(x))),
            }
            &&& Some(p.empty) == field_bool(*v, "empty"@)
            &&& Some(p.symbol@) == field_str(*v, "symbol"@)
        }),
{
    let arr = match json_field(v, "candles") {
        Option::Some(f) => match json_array(f) {
            Option::Some(a) => a,
            Option::None => {
                return Option::None;
            },
        },
        Option::None => {
            return Option::None;
        },
    };
    let candles = match decode_candles(arr) {
        Option::Some(cs) => cs,
        Option::None => {
            return Option::None;
        },
    };
    let empty = match get_bool_field(v, "empty") {
        Option::Some(b) => b,
        Option::None => {
            return Option::None;
        },
    };
    let symbol = match get_str_field(v, "symbol") {
        Option::Some(s) => s,
        Option::None => {
            return Option::None;
        },
    };
    Option::Some(GetPriceHistoryResponse { candles, empty, symbol })
}

/// One top-mover entry: the moved symbol, its description, the move's
/// direction, the change and last price as double bit patterns, and the
/// traded volume.
#[derive(Debug)]
pub struct Mover {
    pub change_bits: u64,
    pub description: String,
    pub direction: String,
    pub last_bits: u64,
    pub symbol: String,
    pub total_volume: i64,
}

/// Whether a JSON value has the mover shape: two doubles, three strings
/// and a signed volume, all required.
pub open spec fn mover_shape(v: Value) -> bool {
    &&& field_bits(v, "change"@) is Some
    &&& field_str(v, "description"@) is Some
    &&& field_str(v, "direction"@) is Some
    &&& field_bits(v, "last"@) is Some
    &&& field_str(v, "symbol"@) is Some
    &&& field_i64(v, "totalVolume"@) is Some
}

/// Whether a filled mover carries exactly the fields of a JSON value.
pub open spec fn mover_matches(m: Mover, v: Value) -> bool {
    &&& Some(m.change_bits) == field_bits(v, "change"@)
    &&& Some(m.description@) == field_str(v, "description"@)
    &&& Some(m.direction@) == field_str(v, "direction"@)
    &&& Some(m.last_bits) == field_bits(v, "last"@)
    &&& Some(m.symbol@) == field_str(v, "symbol"@)
    &&& Some(m.total_volume) == field_i64(v, "totalVolume"@)
}

/// Fill one mover from a parsed value, exactly where it has the shape.
pub fn decode_mover(v: &Value) -> (r: Option<Mover>)
    ensures
        r is Some <==> mover_shape(*v),
        (r matches Some(m) ==> mover_matches(m, *v)),
{
    let change_bits = match get_bits_field(v, "change") {
        Option::Some(b) => b,
        Option::None => {
            return Option::None;
        },
    };
    let description = match get_str_field(v, "description") {
        Option::Some(s) => s,
        Option::None => {
            return Option::None;
        },
    };
    let direction = match get_str_field(v, "direction") {
        Option::Some(s) => s,
        Option::None => {
            return Option::None;
        },
    };
    let last_bits = match get_bits_field(v, "last") {
        Option::Some(b) => b,
        Option::None => {
            return Option::None;
        },
    };
    let symbol = match get_str_field(v, "symbol") {
        Option::Some(s) => s,
        Option::None => {
            return Option::None;
        },
    };
    let total_volume = match get_i64_field(v, "totalVolume") {
        Option::Some(n) => n,
        Option::None => {
            return Option::None;
        },
    };
    Option::Some(Mover { change_bits, description, direction, last_bits, symbol, total_volume })
}

/// Whether a JSON value is an array whose every element has the mover
/// shape: the body of a movers response.
pub open spec fn movers_shape(v: Value) -> bool {
    &&& array_of(v) is Some
    &&& forall|i: int|
        0 <= i < array_of(v)->0.len() ==> mover_shape(#[trigger] array_of(v)->0[i])
}

/// Fill the whole movers list, exactly where the body is an array of
/// mover-shaped elements.
pub fn decode_movers(v: &Value) -> (r: Option<Vec<Mover>>)
    ensures
        r is Some <==> movers_shape(*v),
        (r matches Some(ms) ==> {
            &&& ms@.len() == array_of(*v)->0.len()
            &&& forall|i: int|
                0 <= i < ms@.len() ==> mover_matches(#[trigger] ms@[i], array_of(*v)->0[i])
        }),
{
    let arr = match json_array(v) {
        Option::Some(a) => a,
        Option::None => {
            return Option::None;
        },
    };
    let mut out: Vec<Mover> = Vec::new();
    let n = arr.len();
    let mut i: usize = 0;
    while i < n
        invariant
            i <= n,
            n == arr@.len(),
            array_of(*v) == Some(arr@),
            out@.len() == i,
            forall|j: int|
                0 <= j < i ==> mover_shape(#[trigger] arr@[j]) && mover_matches(out@[j], arr@[j]),
        decreases n - i,
    {
        match decode_mover(&arr[i]) {
            Option::Some(m) => {
                out.push(m);
            },
            Option::None => {
                proof {
                    assert(!mover_shape(array_of(*v)->0[i as int]));
                }
                return Option::None;
            },
        }
        i = i + 1;
    }
    Option::Some(out)
}

/// One account record: the single securities-account entry it wraps.
#[derive(Debug)]
pub struct Account {
    pub securities_account: SecuritiesAccount,
}

/// The securities-account union. The wire format carries no tag: the
/// margin variant is told by the presence of its fields, and a payload
/// of any other shape is kept whole as `Unknown`, so an account type the
/// schema does not model fails closed instead of poisoning the decode.
#[derive(Debug)]
pub enum SecuritiesAccount {
    MarginAccount {
        account_type: String,
        account_id: String,
        round_trips: u64,
        is_day_trader: bool,
        is_closing_only_restricted: bool,
        initial_balances: Value,
        current_balances: Value,
        projected_balances: Value,
    },
    Unknown(Value),
}

/// Whether a JSON value has the margin-account shape: its five scalar
/// fields with their types, and the three balance objects present.
pub open spec fn margin_shape(v: Value) -> bool {
    &&& field_str(v, "type"@) is Some
    &&& field_str(v, "accountId"@) is Some
    &&& field_u64(v, "roundTrips"@) is Some
    &&& field_bool(v, "isDayTrader"@) is Some
    &&& field_bool(v, "isClosingOnlyRestricted"@) is Some
    &&& field_of(v, "initialBalances"@) is Some
    &&& field_of(v, "currentBalances"@) is Some
    &&& field_of(v, "projectedBalances"@) is Some
}

/// Whether a decoded securities account is the reading of a JSON value:
/// the margin variant with its exact fields where the value has the
/// margin shape, and the whole raw value as `Unknown` where it does not.
pub open spec fn sa_matches(sa: SecuritiesAccount, v: Value) -> bool {
    if margin_shape(v) {
        &&& sa matches SecuritiesAccount::MarginAccount {
            account_type,
            account_id,
            round_trips,
            is_day_trader,
            is_closing_only_restricted,
            initial_balances,
            current_balances,
            projected_balances,
        }
        &&& {
            &&& Some(account_type@) == field_str(v, "type"@)
            &&& Some(account_id@) == field_str(v, "accountId"@)
            &&& Some(round_trips) == field_u64(v, "roundTrips"@)
            &&& Some(is_day_trader) == field_bool(v, "isDayTrader"@)
            &&& Some(is_closing_only_restricted) == field_bool(v, "isClosingOnlyRestricted"@)
            &&& Some(initial_balances) == field_of(v, "initialBalances"@)
            &&& Some(current_balances) == field_of(v, "currentBalances"@)
            &&& Some(projected_balances) == field_of(v, "projectedBalances"@)
        }
    } else {
        sa matches SecuritiesAccount::Unknown(u) && u == v
    }
}

/// Read one securities account out of a parsed value. Never fails: a
/// value without the margin shape comes back whole as `Unknown`.
pub fn decode_securities_account(v: &Value) -> (r: SecuritiesAccount)
    ensures
        sa_matches(r, *v),
{
    let account_type = get_str_field(v, "type");
    let account_id = get_str_field(v, "accountId");
    let round_trips = get_u64_field(v, "roundTrips");
    let is_day_trader = get_bool_field(v, "isDayTrader");
    let is_closing = get_bool_field(v, "isClosingOnlyRestricted");
    let ib = json_field(v, "initialBalances");
    let cb = json_field(v, "currentBalances");
    let pb = json_field(v, "projectedBalances");
    if let (
        Option::Some(t),
        Option::Some(id),
        Option::Some(rt),
        Option::Some(dt),
        Option::Some(cr),
        Option::Some(ibv),
        Option::Some(cbv),
        Option::Some(pbv),
    ) = (account_type, account_id, round_trips, is_day_trader, is_closing, ib, cb, pb) {
        SecuritiesAccount::MarginAccount {
            account_type: t,
            account_id: id,
            round_trips: rt,
            is_day_trader: dt,
            is_closing_only_restricted: cr,
            initial_balances: json_clone(ibv),
            current_balances: json_clone(cbv),
            projected_balances: json_clone(pbv),
        }
    } else {
        SecuritiesAccount::Unknown(json_clone(v))
    }
}

/// Whether a JSON value has the account shape: a `securitiesAccount`
/// field, whatever stands under it.
pub open spec fn account_shape(v: Value) -> bool {
    field_of(v, "securitiesAccount"@) is Some
}

/// Fill one account from a parsed value, exactly where the wrapper field
/// is present.
pub fn decode_account(v: &Value) -> (r: Option<Account>)
    ensures
        r is Some <==> account_shape(*v),
        (r matches Some(a) ==> sa_matches(a.securities_account, field_of(*v, "securitiesAccount"@)->0)),
{
    match json_field(v, "securitiesAccount") {
        Option::Some(sa) => Option::Some(
            Account { securities_account: decode_securities_account(sa) },
        ),
        Option::None => Option::None,
    }
}

/// Whether a JSON value is an array whose every element has the account
/// shape: the body of an accounts listing.
pub open spec fn accounts_shape(v: Value) -> bool {
    &&& array_of(v) is Some
    &&& forall|i: int|
        0 <= i < array_of(v)->0.len() ==> account_shape(#[trigger] array_of(v)->0[i])
}

/// Fill the whole accounts list, exactly where the body is an array of
/// account-shaped elements.
pub fn decode_accounts(v: &Value) -> (r: Option<Vec<Account>>)
    ensures
        r is Some <==> accounts_shape(*v),
        (r matches Some(accts) ==> {
            &&& accts@.len() == array_of(*v)->0.len()
            &&& forall|i: int|
                0 <= i < accts@.len() ==> sa_matches(
                    (#[trigger] accts@[i]).securities_account,
                    field_of(array_of(*v)->0[i], "securitiesAccount"@)->0,
                )
        }),
{
    let arr = match json_array(v) {
        Option::Some(a) => a,
        Option::None => {
            return Option::None;
        },
    };
    let mut out: Vec<Account> = Vec::new();
    let n = arr.len();
    let mut i: usize = 0;
    while i < n
        invariant
            i <= n,
            n == arr@.len(),
            array_of(*v) == Some(arr@),
            out@.len() == i,
            forall|j: int|
                0 <= j < i ==> account_shape(#[trigger] arr@[j]) && sa_matches(
                    out@[j].securities_account,
                    field_of(arr@[j], "securitiesAccount"@)->0,
                ),
        decreases n - i,
    {
        match decode_account(&arr[i]) {
            Option::Some(a) => {
                out.push(a);
            },
            Option::None => {
                proof {
                    assert(!account_shape(arr@[i as int]));
                }
                return Option::None;
            },
        }
        i = i + 1;
    }
    Option::Some(out)
}

} // verus!
