//! Planning a request for an options chain.
//!
//! The client holds where the API lives and the key that opens it. It says
//! what is to be requested: the URL and the query parameters. Sending the
//! request is the caller's part, as is handing the body that comes back to
//! [`OptionsChainResponse::from_slice`](crate::models::chain::OptionsChainResponse::from_slice).

use crate::codec::text_view;
use crate::config::Config;
use crate::text::{decimal, decimal_text};
use vstd::prelude::*;

verus! {

/// What narrows a request for an options chain. A field that is absent is
/// left out of the query altogether.
#[derive(Debug, Clone, PartialEq)]
pub struct OptionsChainParams {
    /// The strike, written as it is to appear in the query.
    pub strike_price: Option<String>,
    pub expiration_date: Option<String>,
    pub contract_type: Option<String>,
    pub limit: Option<i32>,
}

/// The mathematical value of an [`OptionsChainParams`].
pub struct OptionsChainParamsView {
    pub strike_price: Option<Seq<char>>,
    pub expiration_date: Option<Seq<char>>,
    pub contract_type: Option<Seq<char>>,
    pub limit: Option<i32>,
}

impl View for OptionsChainParams {
    type V = OptionsChainParamsView;

    open spec fn view(&self) -> OptionsChainParamsView {
        OptionsChainParamsView {
            strike_price: text_view(self.strike_price),
            expiration_date: text_view(self.expiration_date),
            contract_type: text_view(self.contract_type),
            limit: self.limit,
        }
    }
}

impl OptionsChainParamsView {
    /// The parameters that narrow nothing.
    pub open spec fn none() -> OptionsChainParamsView {
        OptionsChainParamsView {
            strike_price: None,
            expiration_date: None,
            contract_type: None,
            limit: None,
        }
    }
}

impl Default for OptionsChainParams {
    fn default() -> (r: OptionsChainParams)
        ensures
            r@ == OptionsChainParamsView::none(),
    {
        OptionsChainParams {
            strike_price: None,
            expiration_date: None,
            contract_type: None,
            limit: None,
        }
    }
}

/// `pairs` with the pair `name = value` appended where there is a value.
pub open spec fn with_param(
    pairs: Seq<(Seq<char>, Seq<char>)>,
    name: Seq<char>,
    value: Option<Seq<char>>,
) -> Seq<(Seq<char>, Seq<char>)> {
    match value {
        Some(v) => pairs.push((name, v)),
        None => pairs,
    }
}

/// The limit as it appears in the query: in decimal notation.
pub open spec fn limit_text(limit: Option<i32>) -> Option<Seq<char>> {
    match limit {
        Some(n) => Some(decimal(n as int)),
        None => None,
    }
}

/// The query of a request: the key first, then `limit`, `strike_price`,
/// `expiration_date` and `contract_type`, each only where it is present.
pub open spec fn query_of(api_key: Seq<char>, params: OptionsChainParamsView) -> Seq<
    (Seq<char>, Seq<char>),
> {
    let key = Seq::empty().push(("apiKey"@, api_key));
    let limit = with_param(key, "limit"@, limit_text(params.limit));
    let strike = with_param(limit, "strike_price"@, params.strike_price);
    let expiration = with_param(strike, "expiration_date"@, params.expiration_date);
    with_param(expiration, "contract_type"@, params.contract_type)
}

/// Whether some pair of `pairs` has the name `name`.
pub open spec fn names(pairs: Seq<(Seq<char>, Seq<char>)>, name: Seq<char>) -> bool {
    exists|i: int| 0 <= i < pairs.len() && (#[trigger] pairs[i]).0 == name
}

/// The names of the five query parameters differ from one another.
pub proof fn lemma_query_keys()
    ensures
        "apiKey"@.len() == 6,
        "limit"@.len() == 5,
        "strike_price"@.len() == 12,
        "expiration_date"@.len() == 15,
        "contract_type"@.len() == 13,
{
    reveal_strlit("apiKey");
    reveal_strlit("limit");
    reveal_strlit("strike_price");
    reveal_strlit("expiration_date");
    reveal_strlit("contract_type");
}

/// The query always opens with the key, under the name `apiKey`, and names
/// each of the four parameters exactly where it is present: one that is
/// absent is not sent at all.
pub proof fn law_query_names(api_key: Seq<char>, params: OptionsChainParamsView)
    ensures
        query_of(api_key, params).len() >= 1,
        query_of(api_key, params)[0] == ("apiKey"@, api_key),
        names(query_of(api_key, params), "limit"@) <==> params.limit is Some,
        names(query_of(api_key, params), "strike_price"@) <==> params.strike_price is Some,
        names(query_of(api_key, params), "expiration_date"@) <==> params.expiration_date is Some,
        names(query_of(api_key, params), "contract_type"@) <==> params.contract_type is Some,
{
    lemma_query_keys();
    let key = Seq::empty().push(("apiKey"@, api_key));
    let limit = with_param(key, "limit"@, limit_text(params.limit));
    let strike = with_param(limit, "strike_price"@, params.strike_price);
    let expiration = with_param(strike, "expiration_date"@, params.expiration_date);
    let query = with_param(expiration, "contract_type"@, params.contract_type);
    assert(query == query_of(api_key, params));
    if params.limit is Some {
        assert(limit[1].0 == "limit"@);
        assert(query[1].0 == "limit"@);
    }
    if params.strike_price is Some {
        let at = limit.len() as int;
        assert(strike[at].0 == "strike_price"@);
        assert(query[at].0 == "strike_price"@);
    }
    if params.expiration_date is Some {
        let at = strike.len() as int;
        assert(expiration[at].0 == "expiration_date"@);
        assert(query[at].0 == "expiration_date"@);
    }
    if params.contract_type is Some {
        let at = expiration.len() as int;
        assert(query[at].0 == "contract_type"@);
    }
}

/// The URL of the options chain of `underlying_ticker`.
pub open spec fn url_of(base_url: Seq<char>, underlying_ticker: Seq<char>) -> Seq<char> {
    base_url + "/snapshot/options/"@ + underlying_ticker
}

/// The names and values of a list of pairs, by their views.
pub open spec fn pairs_view(pairs: Seq<(String, String)>) -> Seq<(Seq<char>, Seq<char>)> {
    pairs.map_values(|pair: (String, String)| (pair.0@, pair.1@))
}

/// A request for an options chain: a GET of `url` with the query `query`.
#[derive(Debug, Clone, PartialEq)]
pub struct OptionsChainRequest {
    pub url: String,
    /// The query parameters, in order, not yet encoded for a URL.
    pub query: Vec<(String, String)>,
}

/// A client of the options API.
pub struct MassiveClient {
    base_url: String,
    api_key: String,
}

/// Appends the pair `name = value` to `pairs`.
fn push_pair(pairs: &mut Vec<(String, String)>, name: &str, value: String)
    ensures
        pairs_view(final(pairs)@) == pairs_view(old(pairs)@).push((name@, value@)),
{
    pairs.push((String::from_str(name), value));
    assert(pairs_view(pairs@) =~= pairs_view(old(pairs)@).push((name@, value@)));
}

impl MassiveClient {
    /// The base URL that requests start with.
    pub closed spec fn base_url(&self) -> Seq<char> {
        self.base_url@
    }

    /// The key that every request carries.
    pub closed spec fn api_key(&self) -> Seq<char> {
        self.api_key@
    }

    /// A client for the API that `config` describes.
    pub fn new(config: &Config) -> (r: MassiveClient)
        ensures
            r.base_url() == config.massive_base_url@,
            r.api_key() == config.massive_api_key@,
    {
        MassiveClient {
            base_url: config.massive_base_url.clone(),
            api_key: config.massive_api_key.clone(),
        }
    }

    /// The URL of the options chain of `underlying_ticker`.
    pub fn options_chain_url(&self, underlying_ticker: &str) -> (r: String)
        ensures
            r@ == url_of(self.base_url(), underlying_ticker@),
    {
        self.base_url.clone().concat("/snapshot/options/").concat(underlying_ticker)
    }

    /// The query of a request narrowed by `params`.
    pub fn options_chain_query(&self, params: &OptionsChainParams) -> (r: Vec<(String, String)>)
        ensures
            pairs_view(r@) == query_of(self.api_key(), params@),
    {
        let mut pairs: Vec<(String, String)> = Vec::new();
        assert(pairs_view(pairs@) =~= Seq::empty());
        push_pair(&mut pairs, "apiKey", self.api_key.clone());
        match params.limit {
            Some(limit) => {
                push_pair(&mut pairs, "limit", decimal_text(limit));
            },
            None => {},
        }
        match &params.strike_price {
            Some(strike) => {
                push_pair(&mut pairs, "strike_price", strike.clone());
            },
            None => {},
        }
        match &params.expiration_date {
            Some(expiration) => {
                push_pair(&mut pairs, "expiration_date", expiration.clone());
            },
            None => {},
        }
        match &params.contract_type {
            Some(contract_type) => {
                push_pair(&mut pairs, "contract_type", contract_type.clone());
            },
            None => {},
        }
        pairs
    }

    /// The request for the options chain of `underlying_ticker`, narrowed by
    /// `params` where there are any.
    pub fn options_chain_request(
        &self,
        underlying_ticker: &str,
        params: Option<OptionsChainParams>,
    ) -> (r: OptionsChainRequest)
        ensures
            r.url@ == url_of(self.base_url(), underlying_ticker@),
            pairs_view(r.query@) == query_of(
                self.api_key(),
                match params {
                    Some(p) => p@,
                    None => OptionsChainParamsView::none(),
                },
            ),
    {
        let params = match params {
            Some(p) => p,
            None => OptionsChainParams::default(),
        };
        OptionsChainRequest {
            url: self.options_chain_url(underlying_ticker),
            query: self.options_chain_query(&params),
        }
    }
}

} // verus!
