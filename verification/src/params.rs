//! Builders for the optional query parameters of each endpoint.
//!
//! Each builder is a flat struct of optional fields. Building the query
//! means: for each present field, one `(name, value)` pair under the
//! endpoint's fixed wire name, in a fixed order; an absent field is
//! omitted entirely, never sent as an empty value. Boolean fields
//! serialize to the literal texts `true` and `false`. No builder checks
//! combinations of fields: those the remote API rejects are its own
//! concern.

use vstd::prelude::*;
use vstd::string::*;

verus! {

/// The pairs contributed by one optional string-valued parameter.
pub open spec fn opt_str_param(name: Seq<char>, v: Option<String>) -> Seq<(Seq<char>, Seq<char>)> {
    match v {
        Option::None => Seq::empty(),
        Option::Some(s) => seq![(name, s@)],
    }
}

/// The wire text of a boolean parameter value.
pub open spec fn bool_text(b: bool) -> Seq<char> {
    if b {
        "true"@
    } else {
        "false"@
    }
}

/// The pairs contributed by one optional boolean parameter.
pub open spec fn opt_bool_param(name: Seq<char>, v: Option<bool>) -> Seq<(Seq<char>, Seq<char>)> {
    match v {
        Option::None => Seq::empty(),
        Option::Some(b) => seq![(name, bool_text(b))],
    }
}

/// The views of a built list of query pairs.
pub open spec fn pairs_view(v: Seq<(String, String)>) -> Seq<(Seq<char>, Seq<char>)> {
    v.map_values(|p: (String, String)| (p.0@, p.1@))
}

/// Append the pair of one string parameter if it is present.
fn push_str_param(out: &mut Vec<(String, String)>, name: &str, v: &Option<String>)
    ensures
        pairs_view(final(out)@) == pairs_view(old(out)@) + opt_str_param(name@, *v),
{
    match v {
        None => {
            proof {
                assert(pairs_view(out@) =~= pairs_view(out@) + opt_str_param(name@, *v));
            }
        },
        Some(s) => {
            out.push((String::from_str(name), s.clone()));
            proof {
                assert(pairs_view(out@) =~= pairs_view(old(out)@) + opt_str_param(name@, *v));
            }
        },
    }
}

/// Append the pair of one boolean parameter if it is present.
fn push_bool_param(out: &mut Vec<(String, String)>, name: &str, v: &Option<bool>)
    ensures
        pairs_view(final(out)@) == pairs_view(old(out)@) + opt_bool_param(name@, *v),
{
    match v {
        None => {
            proof {
                assert(pairs_view(out@) =~= pairs_view(out@) + opt_bool_param(name@, *v));
            }
        },
        Some(b) => {
            let text = if *b {
                "true"
            } else {
                "false"
            };
            out.push((String::from_str(name), String::from_str(text)));
            proof {
                assert(pairs_view(out@) =~= pairs_view(old(out)@) + opt_bool_param(name@, *v));
            }
        },
    }
}

/// Parameters for looking up a single account.
#[derive(Debug)]
pub struct GetAccountParams {
    /// Balances come back by default; `positions` or `orders` adds more.
    pub fields: Option<String>,
}

/// The query pairs a single-account lookup sends.
pub open spec fn account_query(p: GetAccountParams) -> Seq<(Seq<char>, Seq<char>)> {
    opt_str_param("fields"@, p.fields)
}

impl Default for GetAccountParams {
    /// All fields absent: the built query is empty.
    fn default() -> (r: Self)
        ensures
            r.fields is None,
            account_query(r).len() == 0,
    {
        GetAccountParams { fields: None }
    }
}

impl GetAccountParams {
    /// The query pairs this builder contributes, in wire order.
    pub fn query_params(&self) -> (r: Vec<(String, String)>)
        ensures
            pairs_view(r@) == account_query(*self),
    {
        let mut out: Vec<(String, String)> = Vec::new();
        push_str_param(&mut out, "fields", &self.fields);
        proof {
            assert(pairs_view(out@) =~= account_query(*self));
        }
        out
    }
}

/// Parameters for listing all linked accounts.
#[derive(Debug)]
pub struct GetAccountsParams {
    /// Balances come back by default; `positions` or `orders` adds more.
    pub fields: Option<String>,
}

/// The query pairs an accounts listing sends.
pub open spec fn accounts_query(p: GetAccountsParams) -> Seq<(Seq<char>, Seq<char>)> {
    opt_str_param("fields"@, p.fields)
}

impl Default for GetAccountsParams {
    /// All fields absent: the built query is empty.
    fn default() -> (r: Self)
        ensures
            r.fields is None,
            accounts_query(r).len() == 0,
    {
        GetAccountsParams { fields: None }
    }
}

impl GetAccountsParams {
    /// The query pairs this builder contributes, in wire order.
    pub fn query_params(&self) -> (r: Vec<(String, String)>)
        ensures
            pairs_view(r@) == accounts_query(*self),
    {
        let mut out: Vec<(String, String)> = Vec::new();
        push_str_param(&mut out, "fields", &self.fields);
        proof {
            assert(pairs_view(out@) =~= accounts_query(*self));
        }
        out
    }
}

/// Parameters for the market movers listing.
#[derive(Debug)]
pub struct GetMoversParams {
    /// Restrict to movers with this change type: `value` or `percent`.
    pub change: Option<String>,
    /// Restrict to movers moving this way: `up` or `down`.
    pub direction: Option<String>,
}

/// The query pairs a movers request sends: direction first, then change.
pub open spec fn movers_query(p: GetMoversParams) -> Seq<(Seq<char>, Seq<char>)> {
    opt_str_param("direction"@, p.direction) + opt_str_param("change"@, p.change)
}

impl Default for GetMoversParams {
    /// All fields absent: the built query is empty.
    fn default() -> (r: Self)
        ensures
            r.change is None,
            r.direction is None,
            movers_query(r).len() == 0,
    {
        GetMoversParams { change: None, direction: None }
    }
}

impl GetMoversParams {
    /// The query pairs this builder contributes, in wire order.
    pub fn query_params(&self) -> (r: Vec<(String, String)>)
        ensures
            pairs_view(r@) == movers_query(*self),
    {
        let mut out: Vec<(String, String)> = Vec::new();
        push_str_param(&mut out, "direction", &self.direction);
        push_str_param(&mut out, "change", &self.change);
        proof {
            assert(pairs_view(out@) =~= movers_query(*self));
        }
        out
    }
}

/// Parameters for a price-history request.
#[derive(Debug)]
pub struct GetPriceHistoryParams {
    /// End date, milliseconds since the epoch. With a start and an end
    /// date, no period should be given.
    pub end_date: Option<String>,
    /// How a new candle is formed: `minute`, `daily`, `weekly` or `monthly`.
    pub frequency_type: Option<String>,
    /// How many of the frequency type each candle spans.
    pub frequency: Option<String>,
    /// Whether extended-hours data comes back; the server defaults to yes.
    pub need_extended_hours_data: Option<bool>,
    /// The kind of period: `day`, `month`, `year` or `ytd`.
    pub period_type: Option<String>,
    /// How many periods to show.
    pub period: Option<String>,
    /// Start date, milliseconds since the epoch. With a start and an end
    /// date, no period should be given.
    pub start_date: Option<String>,
}

/// The query pairs a price-history request sends, in wire order.
pub open spec fn price_history_query(p: GetPriceHistoryParams) -> Seq<(Seq<char>, Seq<char>)> {
    opt_str_param("periodType"@, p.period_type) + opt_str_param("period"@, p.period)
        + opt_str_param("frequencyType"@, p.frequency_type)
        + opt_str_param("frequency"@, p.frequency) + opt_str_param("endDate"@, p.end_date)
        + opt_str_param("startDate"@, p.start_date)
        + opt_bool_param("needExtendedHoursData"@, p.need_extended_hours_data)
}

impl Default for GetPriceHistoryParams {
    /// All fields absent: the built query is empty.
    fn default() -> (r: Self)
        ensures
            r.end_date is None,
            r.frequency_type is None,
            r.frequency is None,
            r.need_extended_hours_data is None,
            r.period_type is None,
            r.period is None,
            r.start_date is None,
            price_history_query(r).len() == 0,
    {
        GetPriceHistoryParams {
            end_date: None,
            frequency_type: None,
            frequency: None,
            need_extended_hours_data: None,
            period_type: None,
            period: None,
            start_date: None,
        }
    }
}

impl GetPriceHistoryParams {
    /// The query pairs this builder contributes, in wire order.
    pub fn query_params(&self) -> (r: Vec<(String, String)>)
        ensures
            pairs_view(r@) == price_history_query(*self),
    {
        let mut out: Vec<(String, String)> = Vec::new();
        push_str_param(&mut out, "periodType", &self.period_type);
        push_str_param(&mut out, "period", &self.period);
        push_str_param(&mut out, "frequencyType", &self.frequency_type);
        push_str_param(&mut out, "frequency", &self.frequency);
        push_str_param(&mut out, "endDate", &self.end_date);
        push_str_param(&mut out, "startDate", &self.start_date);
        push_bool_param(&mut out, "needExtendedHoursData", &self.need_extended_hours_data);
        proof {
            assert(pairs_view(out@) =~= price_history_query(*self));
        }
        out
    }
}

/// A single-account builder with its field absent builds no pairs; with
/// it present, exactly the one documented pair.
pub proof fn lemma_account_single_field(p: GetAccountParams)
    ensures
        p.fields is None ==> account_query(p) =~= Seq::<(Seq<char>, Seq<char>)>::empty(),
        p.fields is Some ==> account_query(p) =~= seq![("fields"@, p.fields->0@)],
{
}

/// An accounts-listing builder with its field absent builds no pairs;
/// with it present, exactly the one documented pair.
pub proof fn lemma_accounts_single_field(p: GetAccountsParams)
    ensures
        p.fields is None ==> accounts_query(p) =~= Seq::<(Seq<char>, Seq<char>)>::empty(),
        p.fields is Some ==> accounts_query(p) =~= seq![("fields"@, p.fields->0@)],
{
}

/// A movers builder with every field absent builds no pairs; with one
/// field present, exactly that field's documented pair.
pub proof fn lemma_movers_single_field(p: GetMoversParams)
    ensures
        (p.direction is None && p.change is None) ==> movers_query(p) =~= Seq::<
            (Seq<char>, Seq<char>),
        >::empty(),
        (p.direction is Some && p.change is None) ==> movers_query(p) =~= seq![
            ("direction"@, p.direction->0@),
        ],
        (p.change is Some && p.direction is None) ==> movers_query(p) =~= seq![
            ("change"@, p.change->0@),
        ],
{
}

/// A price-history builder with every field absent builds no pairs; with
/// exactly one field present, exactly that field's documented pair, the
/// boolean written as its literal text.
pub proof fn lemma_price_history_single_field(p: GetPriceHistoryParams)
    ensures
        all_but_absent(p, 7) ==> price_history_query(p) =~= Seq::<(Seq<char>, Seq<char>)>::empty(),
        (p.period_type is Some && all_but_absent(p, 0)) ==> price_history_query(p) =~= seq![
            ("periodType"@, p.period_type->0@),
        ],
        (p.period is Some && all_but_absent(p, 1)) ==> price_history_query(p) =~= seq![
            ("period"@, p.period->0@),
        ],
        (p.frequency_type is Some && all_but_absent(p, 2)) ==> price_history_query(p) =~= seq![
            ("frequencyType"@, p.frequency_type->0@),
        ],
        (p.frequency is Some && all_but_absent(p, 3)) ==> price_history_query(p) =~= seq![
            ("frequency"@, p.frequency->0@),
        ],
        (p.end_date is Some && all_but_absent(p, 4)) ==> price_history_query(p) =~= seq![
            ("endDate"@, p.end_date->0@),
        ],
        (p.start_date is Some && all_but_absent(p, 5)) ==> price_history_query(p) =~= seq![
            ("startDate"@, p.start_date->0@),
        ],
        (p.need_extended_hours_data is Some && all_but_absent(p, 6)) ==> price_history_query(p)
            =~= seq![("needExtendedHoursData"@, bool_text(p.need_extended_hours_data->0))],
{
}

/// Whether every field of a price-history builder but the numbered one
/// is absent, the fields numbered in wire order.
pub open spec fn all_but_absent(p: GetPriceHistoryParams, keep: int) -> bool {
    &&& keep == 0 || p.period_type is None
    &&& keep == 1 || p.period is None
    &&& keep == 2 || p.frequency_type is None
    &&& keep == 3 || p.frequency is None
    &&& keep == 4 || p.end_date is None
    &&& keep == 5 || p.start_date is None
    &&& keep == 6 || p.need_extended_hours_data is None
}

} // verus!
