//! An options chain: the response and the contracts in it.

use crate::codec::{
    array_field, double_field, double_json, integer_field, integer_json, lemma_lookup_empty,
    lemma_lookup_push, object_field, put, read_double, read_integer, read_object, read_text,
    text_field, text_json, text_view, unset, writable, write_double, write_integer, write_text,
};
use crate::error::PeriscopeError;
use crate::float::Float64;
use crate::json::{
    items_view, json_document, lemma_items_view, parse_document, said, schema_error, Json,
    JsonView,
};
use crate::models::greeks::Greeks;
use crate::models::options::{
    ContractDetails, ContractDetailsView, DayBar, LastQuote, LastTrade, UnderlyingAsset,
    UnderlyingAssetView,
};
use vstd::prelude::*;

verus! {

/// One contract of the chain. Every facet is optional: where one is absent,
/// the upstream API did not fill it in for this contract.
#[derive(Debug, Clone, PartialEq)]
pub struct OptionContract {
    pub details: Option<ContractDetails>,
    pub greeks: Option<Greeks>,
    pub implied_volatility: Option<Float64>,
    pub open_interest: Option<i64>,
    pub last_quote: Option<LastQuote>,
    pub last_trade: Option<LastTrade>,
    pub day: Option<DayBar>,
    pub underlying_asset: Option<UnderlyingAsset>,
}

/// The mathematical value of an [`OptionContract`].
pub struct OptionContractView {
    pub details: Option<ContractDetailsView>,
    pub greeks: Option<Greeks>,
    pub implied_volatility: Option<Float64>,
    pub open_interest: Option<i64>,
    pub last_quote: Option<LastQuote>,
    pub last_trade: Option<LastTrade>,
    pub day: Option<DayBar>,
    pub underlying_asset: Option<UnderlyingAssetView>,
}

impl View for OptionContract {
    type V = OptionContractView;

    open spec fn view(&self) -> OptionContractView {
        OptionContractView {
            details: match self.details {
                Some(details) => Some(details@),
                None => None,
            },
            greeks: self.greeks,
            implied_volatility: self.implied_volatility,
            open_interest: self.open_interest,
            last_quote: self.last_quote,
            last_trade: self.last_trade,
            day: self.day,
            underlying_asset: match self.underlying_asset {
                Some(asset) => Some(asset@),
                None => None,
            },
        }
    }
}

/// The member names of an [`OptionContract`] differ from one another.
pub proof fn lemma_contract_keys()
    ensures
        "details"@.len() == 7,
        "greeks"@.len() == 6,
        "implied_volatility"@.len() == 18,
        "open_interest"@.len() == 13,
        "last_quote"@.len() == 10,
        "last_trade"@.len() == 10,
        "day"@.len() == 3,
        "underlying_asset"@.len() == 16,
        "last_quote"@ != "last_trade"@,
{
    reveal_strlit("details");
    reveal_strlit("greeks");
    reveal_strlit("implied_volatility");
    reveal_strlit("open_interest");
    reveal_strlit("last_quote");
    reveal_strlit("last_trade");
    reveal_strlit("day");
    reveal_strlit("underlying_asset");
    assert("last_quote"@[5] == 'q' && "last_trade"@[5] == 't');
}

impl OptionContractView {
    /// Every double in the contract, where it is present, is finite.
    pub open spec fn finite(self) -> bool {
        &&& self.details matches Some(details) ==> details.finite()
        &&& self.greeks matches Some(greeks) ==> greeks.finite()
        &&& writable(self.implied_volatility)
        &&& self.last_quote matches Some(quote) ==> quote.finite()
        &&& self.last_trade matches Some(trade) ==> trade.finite()
        &&& self.day matches Some(day) ==> day.finite()
        &&& self.underlying_asset matches Some(asset) ==> asset.finite()
    }

    /// What a JSON value reads as. A facet is present exactly where its member
    /// is an object.
    pub open spec fn decode(json: JsonView) -> OptionContractView {
        OptionContractView {
            details: match object_field(json, "details"@) {
                Some(facet) => Some(ContractDetailsView::decode(facet)),
                None => None,
            },
            greeks: match object_field(json, "greeks"@) {
                Some(facet) => Some(Greeks::decode(facet)),
                None => None,
            },
            implied_volatility: double_field(json, "implied_volatility"@),
            open_interest: integer_field(json, "open_interest"@),
            last_quote: match object_field(json, "last_quote"@) {
                Some(facet) => Some(LastQuote::decode(facet)),
                None => None,
            },
            last_trade: match object_field(json, "last_trade"@) {
                Some(facet) => Some(LastTrade::decode(facet)),
                None => None,
            },
            day: match object_field(json, "day"@) {
                Some(facet) => Some(DayBar::decode(facet)),
                None => None,
            },
            underlying_asset: match object_field(json, "underlying_asset"@) {
                Some(facet) => Some(UnderlyingAssetView::decode(facet)),
                None => None,
            },
        }
    }

    /// What the contract is written as: an object with all eight members, a
    /// facet that is absent as `null`.
    pub open spec fn encode(self) -> JsonView {
        JsonView::Object(
            Seq::empty().push(
                (
                    "details"@,
                    match self.details {
                        Some(details) => details.encode(),
                        None => JsonView::Null,
                    },
                ),
            ).push(
                (
                    "greeks"@,
                    match self.greeks {
                        Some(greeks) => greeks.encode(),
                        None => JsonView::Null,
                    },
                ),
            ).push(("implied_volatility"@, double_json(self.implied_volatility))).push(
                ("open_interest"@, integer_json(self.open_interest)),
            ).push(
                (
                    "last_quote"@,
                    match self.last_quote {
                        Some(quote) => quote.encode(),
                        None => JsonView::Null,
                    },
                ),
            ).push(
                (
                    "last_trade"@,
                    match self.last_trade {
                        Some(trade) => trade.encode(),
                        None => JsonView::Null,
                    },
                ),
            ).push(
                (
                    "day"@,
                    match self.day {
                        Some(day) => day.encode(),
                        None => JsonView::Null,
                    },
                ),
            ).push(
                (
                    "underlying_asset"@,
                    match self.underlying_asset {
                        Some(asset) => asset.encode(),
                        None => JsonView::Null,
                    },
                ),
            ),
        )
    }

    /// Writing a contract whose doubles are finite and reading it back gives
    /// the contract.
    pub proof fn law_round_trip(self)
        requires
            self.finite(),
        ensures
            OptionContractView::decode(self.encode()) == self,
    {
        broadcast use lemma_lookup_push, lemma_lookup_empty;

        lemma_contract_keys();
        if let Some(details) = self.details {
            details.law_round_trip();
        }
        if let Some(greeks) = self.greeks {
            greeks.law_round_trip();
        }
        if let Some(quote) = self.last_quote {
            quote.law_round_trip();
        }
        if let Some(trade) = self.last_trade {
            trade.law_round_trip();
        }
        if let Some(day) = self.day {
            day.law_round_trip();
        }
        if let Some(asset) = self.underlying_asset {
            asset.law_round_trip();
        }
    }

    /// A contract never fails to read, and a facet or a value whose member is
    /// missing or `null` reads as absent, whatever else the contract holds.
    pub proof fn law_unset_reads_absent(json: JsonView)
        ensures
            unset(json, "details"@) ==> OptionContractView::decode(json).details is None,
            unset(json, "greeks"@) ==> OptionContractView::decode(json).greeks is None,
            unset(json, "implied_volatility"@) ==> OptionContractView::decode(
                json,
            ).implied_volatility is None,
            unset(json, "open_interest"@) ==> OptionContractView::decode(
                json,
            ).open_interest is None,
            unset(json, "last_quote"@) ==> OptionContractView::decode(json).last_quote is None,
            unset(json, "last_trade"@) ==> OptionContractView::decode(json).last_trade is None,
            unset(json, "day"@) ==> OptionContractView::decode(json).day is None,
            unset(json, "underlying_asset"@) ==> OptionContractView::decode(
                json,
            ).underlying_asset is None,
    {
    }

    /// A facet whose member is anything but an object reads as absent.
    pub proof fn law_mismatch_reads_absent(json: JsonView)
        ensures
            !(json.member("details"@) matches Some(JsonView::Object(_)))
                ==> OptionContractView::decode(json).details is None,
            !(json.member("greeks"@) matches Some(JsonView::Object(_)))
                ==> OptionContractView::decode(json).greeks is None,
            !(json.member("last_quote"@) matches Some(JsonView::Object(_)))
                ==> OptionContractView::decode(json).last_quote is None,
            !(json.member("last_trade"@) matches Some(JsonView::Object(_)))
                ==> OptionContractView::decode(json).last_trade is None,
            !(json.member("day"@) matches Some(JsonView::Object(_))) ==> OptionContractView::decode(
                json,
            ).day is None,
            !(json.member("underlying_asset"@) matches Some(JsonView::Object(_)))
                ==> OptionContractView::decode(json).underlying_asset is None,
    {
    }
}

impl OptionContract {
    pub fn from_json(json: &Json) -> (r: OptionContract)
        ensures
            r@ == OptionContractView::decode(json@),
    {
        OptionContract {
            details: match read_object(json, "details") {
                Some(facet) => Some(ContractDetails::from_json(facet)),
                None => None,
            },
            greeks: match read_object(json, "greeks") {
                Some(facet) => Some(Greeks::from_json(facet)),
                None => None,
            },
            implied_volatility: read_double(json, "implied_volatility"),
            open_interest: read_integer(json, "open_interest"),
            last_quote: match read_object(json, "last_quote") {
                Some(facet) => Some(LastQuote::from_json(facet)),
                None => None,
            },
            last_trade: match read_object(json, "last_trade") {
                Some(facet) => Some(LastTrade::from_json(facet)),
                None => None,
            },
            day: match read_object(json, "day") {
                Some(facet) => Some(DayBar::from_json(facet)),
                None => None,
            },
            underlying_asset: match read_object(json, "underlying_asset") {
                Some(facet) => Some(UnderlyingAsset::from_json(facet)),
                None => None,
            },
        }
    }

    pub fn to_json(&self) -> (r: Json)
        ensures
            r@ == self@.encode(),
    {
        let mut entries: Vec<(String, Json)> = Vec::new();
        let details = match &self.details {
            Some(details) => details.to_json(),
            None => Json::Null,
        };
        put(&mut entries, "details", details);
        let greeks = match &self.greeks {
            Some(greeks) => greeks.to_json(),
            None => Json::Null,
        };
        put(&mut entries, "greeks", greeks);
        put(&mut entries, "implied_volatility", write_double(self.implied_volatility));
        put(&mut entries, "open_interest", write_integer(self.open_interest));
        let quote = match &self.last_quote {
            Some(quote) => quote.to_json(),
            None => Json::Null,
        };
        put(&mut entries, "last_quote", quote);
        let trade = match &self.last_trade {
            Some(trade) => trade.to_json(),
            None => Json::Null,
        };
        put(&mut entries, "last_trade", trade);
        let day = match &self.day {
            Some(day) => day.to_json(),
            None => Json::Null,
        };
        put(&mut entries, "day", day);
        let asset = match &self.underlying_asset {
            Some(asset) => asset.to_json(),
            None => Json::Null,
        };
        put(&mut entries, "underlying_asset", asset);
        Json::Object(entries)
    }
}

/// A snapshot of an options chain, as the API answers with it.
#[derive(Debug, Clone, PartialEq)]
pub struct OptionsChainResponse {
    pub status: String,
    pub request_id: String,
    pub results: Vec<OptionContract>,
    /// Where the next page is, if there is one. It is handed on, not followed.
    pub next_url: Option<String>,
}

/// The mathematical value of an [`OptionsChainResponse`].
pub struct OptionsChainResponseView {
    pub status: Seq<char>,
    pub request_id: Seq<char>,
    pub results: Seq<OptionContractView>,
    pub next_url: Option<Seq<char>>,
}

/// The values of a list of contracts, in order.
pub open spec fn contracts_view(contracts: Seq<OptionContract>) -> Seq<OptionContractView> {
    contracts.map_values(|contract: OptionContract| contract@)
}

impl View for OptionsChainResponse {
    type V = OptionsChainResponseView;

    open spec fn view(&self) -> OptionsChainResponseView {
        OptionsChainResponseView {
            status: self.status@,
            request_id: self.request_id@,
            results: contracts_view(self.results@),
            next_url: text_view(self.next_url),
        }
    }
}

/// Every item of the list is an object.
pub open spec fn all_objects(items: Seq<JsonView>) -> bool {
    forall|i: int| 0 <= i < items.len() ==> (#[trigger] items[i]).is_object()
}

/// The member names of an [`OptionsChainResponse`] differ from one another.
pub proof fn lemma_response_keys()
    ensures
        "status"@.len() == 6,
        "request_id"@.len() == 10,
        "results"@.len() == 7,
        "next_url"@.len() == 8,
{
    reveal_strlit("status");
    reveal_strlit("request_id");
    reveal_strlit("results");
    reveal_strlit("next_url");
}

impl OptionsChainResponseView {
    /// Every double in every contract, where it is present, is finite.
    pub open spec fn finite(self) -> bool {
        forall|i: int| 0 <= i < self.results.len() ==> (#[trigger] self.results[i]).finite()
    }

    /// What a JSON value reads as, where it has the shape of a response: the
    /// members `status` and `request_id` are strings, and `results` is an
    /// array of objects. A value of any other shape is rejected.
    pub open spec fn decode(json: JsonView) -> Option<OptionsChainResponseView> {
        match (
            text_field(json, "status"@),
            text_field(json, "request_id"@),
            array_field(json, "results"@),
        ) {
            (Some(status), Some(request_id), Some(items)) => if all_objects(items) {
                Some(
                    OptionsChainResponseView {
                        status,
                        request_id,
                        results: items.map_values(|item: JsonView| OptionContractView::decode(item)),
                        next_url: text_field(json, "next_url"@),
                    },
                )
            } else {
                None
            },
            _ => None,
        }
    }

    /// What the response is written as: an object with all four members,
    /// the contracts in their order.
    pub open spec fn encode(self) -> JsonView {
        JsonView::Object(
            Seq::empty().push(("status"@, JsonView::Text(self.status))).push(
                ("request_id"@, JsonView::Text(self.request_id)),
            ).push(
                (
                    "results"@,
                    JsonView::Array(
                        self.results.map_values(|contract: OptionContractView| contract.encode()),
                    ),
                ),
            ).push(("next_url"@, text_json(self.next_url))),
        )
    }

    /// Whether a value is accepted rests on its three required members
    /// alone: nothing that a contract holds or lacks, and no other member,
    /// makes reading fail.
    pub proof fn law_accepted(json: JsonView)
        ensures
            OptionsChainResponseView::decode(json) is Some <==> {
                &&& text_field(json, "status"@) is Some
                &&& text_field(json, "request_id"@) is Some
                &&& array_field(json, "results"@) matches Some(items) && all_objects(items)
            },
            OptionsChainResponseView::decode(json) matches Some(response) ==> {
                &&& response.results.len() == array_field(json, "results"@)->Some_0.len()
                &&& unset(json, "next_url"@) ==> response.next_url is None
            },
    {
    }

    /// Writing a response whose doubles are finite and reading it back gives
    /// the response.
    pub proof fn law_round_trip(self)
        requires
            self.finite(),
        ensures
            OptionsChainResponseView::decode(self.encode()) == Some(self),
    {
        broadcast use lemma_lookup_push, lemma_lookup_empty;

        lemma_response_keys();
        let items = self.results.map_values(|contract: OptionContractView| contract.encode());
        assert(array_field(self.encode(), "results"@) == Some(items));
        assert(all_objects(items));
        let back = items.map_values(|item: JsonView| OptionContractView::decode(item));
        assert forall|i: int| 0 <= i < self.results.len() implies back[i] == self.results[i] by {
            self.results[i].law_round_trip();
        }
        assert(back =~= self.results);
    }
}

/// The error for a required member that is missing, made from [`missing_field_message`].
fn missing_field(key: &str) -> (e: PeriscopeError)
    ensures
        e matches PeriscopeError::Json(inner) && said(inner, missing_field_message(key@)),
{
    let message = String::from_str("missing field `").concat(key).concat("`");
    PeriscopeError::Json(schema_error(message.as_str()))
}

/// The error for a member or an item of the wrong kind, made from [`invalid_type_message`].
fn invalid_type(what: &str, expected: &str) -> (e: PeriscopeError)
    ensures
        e matches PeriscopeError::Json(inner) && said(
            inner,
            invalid_type_message(what@, expected@),
        ),
{
    let message = String::from_str("invalid type for ").concat(what).concat(", expected ").concat(
        expected,
    );
    PeriscopeError::Json(schema_error(message.as_str()))
}

/// What the error for a missing member says: the member's name between
/// backticks, after the words `missing field`.
pub open spec fn missing_field_message(key: Seq<char>) -> Seq<char> {
    "missing field `"@ + key + "`"@
}

/// What the error for a value of the wrong kind says: what was read, and
/// what was expected in its place.
pub open spec fn invalid_type_message(what: Seq<char>, expected: Seq<char>) -> Seq<char> {
    "invalid type for "@ + what + ", expected "@ + expected
}

/// Reads a required string member.
fn require_text(json: &Json, key: &str) -> (r: Result<String, PeriscopeError>)
    ensures
        match text_field(json@, key@) {
            Some(text) => r matches Ok(s) && s@ == text,
            None => r matches Err(e) && e is Json,
        },
{
    match json.member(key) {
        Some(value) => match value.as_text() {
            Some(text) => Ok(text.clone()),
            None => Err(invalid_type(key, "a string")),
        },
        None => Err(missing_field(key)),
    }
}

impl OptionsChainResponse {
    /// Reads a response from a JSON value.
    ///
    /// A value of the wrong shape gives a `Json` error. Within a contract
    /// nothing is required: what is missing or unusable reads as absent.
    pub fn from_json(json: &Json) -> (r: Result<OptionsChainResponse, PeriscopeError>)
        ensures
            match OptionsChainResponseView::decode(json@) {
                Some(response) => r matches Ok(x) && x@ == response,
                None => r matches Err(e) && e is Json,
            },
    {
        let status = match require_text(json, "status") {
            Ok(status) => status,
            Err(e) => {
                return Err(e);
            },
        };
        let request_id = match require_text(json, "request_id") {
            Ok(request_id) => request_id,
            Err(e) => {
                return Err(e);
            },
        };
        let items = match json.member("results") {
            Some(value) => match value.as_array() {
                Some(items) => items,
                None => {
                    return Err(invalid_type("results", "an array"));
                },
            },
            None => {
                return Err(missing_field("results"));
            },
        };
        proof {
            lemma_items_view(items@);
        }
        let mut results: Vec<OptionContract> = Vec::new();
        let mut i: usize = 0;
        while i < items.len()
            invariant
                i <= items.len(),
                results@.len() == i,
                array_field(json@, "results"@) == Some(items_view(items@)),
                items_view(items@).len() == items@.len(),
                forall|k: int| 0 <= k < items@.len() ==> #[trigger] items_view(items@)[k] == items@[k]@,
                forall|k: int| 0 <= k < i ==> (#[trigger] items@[k])@.is_object(),
                forall|k: int|
                    0 <= k < i ==> (#[trigger] results@[k])@ == OptionContractView::decode(
                        items@[k]@,
                    ),
            decreases items.len() - i,
        {
            if !items[i].is_object() {
                assert(!items_view(items@)[i as int].is_object());
                return Err(invalid_type("an item of results", "an object"));
            }
            results.push(OptionContract::from_json(&items[i]));
            i += 1;
        }
        let next_url = read_text(json, "next_url");
        let response = OptionsChainResponse { status, request_id, results, next_url };
        proof {
            let expected = items_view(items@).map_values(
                |item: JsonView| OptionContractView::decode(item),
            );
            assert(all_objects(items_view(items@)));
            assert(response@.results =~= expected);
        }
        Ok(response)
    }

    /// Reads a response from the bytes of a body: parses them as JSON, then
    /// reads the document as [`OptionsChainResponse::from_json`] does.
    ///
    /// Bytes that are no JSON document give a `Json` error, as does a
    /// document of the wrong shape.
    pub fn from_slice(bytes: &[u8]) -> (r: Result<OptionsChainResponse, PeriscopeError>)
        ensures
            match json_document(bytes@) {
                Some(document) => match OptionsChainResponseView::decode(document) {
                    Some(response) => r matches Ok(x) && x@ == response,
                    None => r matches Err(e) && e is Json,
                },
                None => r matches Err(e) && e is Json,
            },
    {
        match parse_document(bytes) {
            Ok(document) => OptionsChainResponse::from_json(&document),
            Err(e) => Err(PeriscopeError::Json(e)),
        }
    }

    /// Writes the response as a JSON value.
    pub fn to_json(&self) -> (r: Json)
        ensures
            r@ == self@.encode(),
    {
        let mut items: Vec<Json> = Vec::new();
        let mut i: usize = 0;
        while i < self.results.len()
            invariant
                i <= self.results.len(),
                items@.len() == i,
                items_view(items@).len() == i,
                forall|k: int|
                    0 <= k < i ==> #[trigger] items_view(items@)[k] == self.results@[k]@.encode(),
            decreases self.results.len() - i,
        {
            let item = self.results[i].to_json();
            let ghost before = items@;
            items.push(item);
            proof {
                assert(items@.drop_last() =~= before);
            }
            i += 1;
        }
        let mut entries: Vec<(String, Json)> = Vec::new();
        put(&mut entries, "status", Json::Text(self.status.clone()));
        put(&mut entries, "request_id", Json::Text(self.request_id.clone()));
        let ghost written = items_view(items@);
        put(&mut entries, "results", Json::Array(items));
        put(&mut entries, "next_url", write_text(&self.next_url));
        proof {
            assert(written =~= self@.results.map_values(
                |contract: OptionContractView| contract.encode(),
            ));
        }
        Json::Object(entries)
    }
}

} // verus!
